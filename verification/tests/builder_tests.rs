use instrumented_builder::builder::evaluate_instantiation;
use instrumented_builder::builder::finish_build;
use instrumented_builder::builder::ExitStatus;
use instrumented_builder::builder::Info;
use instrumented_builder::errors::InternalError;
use instrumented_builder::externals::produced_as_vec;
use instrumented_builder::externals::produced_from_vec;
use instrumented_builder::externals::produced_single;
use instrumented_builder::externals::GcRootTempDir;
use instrumented_builder::paths::DrvFile;
use instrumented_builder::paths::StorePath;

fn gc_root() -> GcRootTempDir {
    GcRootTempDir(tempfile::TempDir::new().unwrap())
}

fn ok_status() -> ExitStatus {
    ExitStatus { code: Some(0) }
}

#[test]
fn successful_run_extracts_outputs_and_sources() {
    let stdout = b"/nix/store/aaa-x\n".to_vec();
    let stderr = b"evaluating file '/etc/foo.nix'\n\
                   trace: attribute: 'primary' -> '/nix/store/bbb'\n\
                   trace: attribute: 'primary_gc_rooted' -> '/nix/store/ccc'\n"
        .to_vec();
    let info = evaluate_instantiation(ok_status(), &stdout, &stderr, gc_root()).unwrap();
    match info {
        Info::Success(s) => {
            assert_eq!(s.output_paths.primary, DrvFile(String::from("/nix/store/bbb")));
            // Phase two realizes exactly this handle.
            assert_eq!(
                s.output_paths.primary_gc_rooted,
                DrvFile(String::from("/nix/store/ccc"))
            );
            assert_eq!(s.paths, vec![String::from("/etc/foo.nix")]);
            assert_eq!(
                produced_as_vec(&s.drvs.0),
                &vec![StorePath(b"/nix/store/aaa-x".to_vec())]
            );
            // Phase two finished: the realized path stands in for everything.
            let realized = StorePath(b"/nix/store/real-x".to_vec());
            let final_info = finish_build(s, realized.clone(), gc_root());
            match final_info {
                Info::Success(f) => {
                    assert_eq!(f.output_paths, realized);
                    assert_eq!(produced_as_vec(&f.drvs.0), &vec![realized]);
                    assert_eq!(f.paths, vec![String::from("/etc/foo.nix")]);
                },
                Info::Failure(_) => panic!("expected success"),
            }
        },
        Info::Failure(_) => panic!("expected success"),
    }
}

#[test]
fn failing_run_keeps_status_and_full_transcript() {
    let stdout = b"/nix/store/aaa-x\n".to_vec();
    let stderr = b"error: something broke\nevaluating file '/etc/foo.nix'\nmore noise\n".to_vec();
    let status = ExitStatus { code: Some(1) };
    let info = evaluate_instantiation(status, &stdout, &stderr, gc_root()).unwrap();
    match info {
        Info::Failure(f) => {
            assert_eq!(f.exec_result, ExitStatus { code: Some(1) });
            // The transcript is the whole stream in order: classified lines
            // do not suppress their line from the failure transcript.
            assert_eq!(
                f.log_lines,
                vec![
                    b"error: something broke".to_vec(),
                    b"evaluating file '/etc/foo.nix'".to_vec(),
                    b"more noise".to_vec(),
                ]
            );
        },
        Info::Success(_) => panic!("expected failure"),
    }
}

#[test]
fn successful_run_without_gc_rooted_output_is_fatal() {
    let stdout = b"/nix/store/aaa-x\n".to_vec();
    let stderr = b"trace: attribute: 'primary' -> '/nix/store/bbb'\n".to_vec();
    let r = evaluate_instantiation(ok_status(), &stdout, &stderr, gc_root());
    assert_eq!(r.unwrap_err(), InternalError::MissingPrimaryGcRooted);
}

#[test]
fn successful_run_without_primary_output_is_fatal() {
    let stdout = b"/nix/store/aaa-x\n".to_vec();
    let stderr = b"trace: attribute: 'primary_gc_rooted' -> '/nix/store/ccc'\n".to_vec();
    let r = evaluate_instantiation(ok_status(), &stdout, &stderr, gc_root());
    assert_eq!(r.unwrap_err(), InternalError::MissingPrimary);
}

#[test]
fn empty_machine_readable_output_is_fatal() {
    let stdout = b"\n".to_vec();
    let stderr = b"trace: attribute: 'primary' -> '/nix/store/bbb'\n".to_vec();
    let r = evaluate_instantiation(ok_status(), &stdout, &stderr, gc_root());
    assert_eq!(r.unwrap_err(), InternalError::NoProducedPaths);
}

#[test]
fn duplicate_primary_in_stream_is_fatal_end_to_end() {
    let stdout = b"/nix/store/aaa-x\n".to_vec();
    let stderr = b"trace: attribute: 'primary' -> '/nix/store/bbb'\n\
                   trace: attribute: 'primary' -> '/nix/store/ddd'\n"
        .to_vec();
    let r = evaluate_instantiation(ok_status(), &stdout, &stderr, gc_root());
    assert_eq!(
        r.unwrap_err(),
        InternalError::DuplicatePrimary {
            first: String::from("/nix/store/bbb"),
            second: String::from("/nix/store/ddd"),
        }
    );
}

#[test]
fn signal_termination_counts_as_failure() {
    let stdout = b"/nix/store/aaa-x\n".to_vec();
    let stderr = b"interrupted\n".to_vec();
    let status = ExitStatus { code: None };
    let info = evaluate_instantiation(status, &stdout, &stderr, gc_root()).unwrap();
    match info {
        Info::Failure(f) => {
            assert_eq!(f.exec_result, ExitStatus { code: None });
            assert_eq!(f.log_lines, vec![b"interrupted".to_vec()]);
        },
        Info::Success(_) => panic!("expected failure"),
    }
}

#[test]
fn produced_paths_must_not_be_empty() {
    assert!(produced_from_vec(Vec::new()).is_none());
    let v = vec![
        StorePath(b"/nix/store/a".to_vec()),
        StorePath(b"/nix/store/b".to_vec()),
    ];
    let p = produced_from_vec(v.clone()).unwrap();
    assert_eq!(produced_as_vec(&p), &v);
    let one = produced_single(StorePath(b"/nix/store/c".to_vec()));
    assert_eq!(
        produced_as_vec(&one),
        &vec![StorePath(b"/nix/store/c".to_vec())]
    );
}

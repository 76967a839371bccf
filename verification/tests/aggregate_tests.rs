use instrumented_builder::aggregate::aggregate;
use instrumented_builder::errors::InternalError;
use instrumented_builder::events::LogDatum;
use instrumented_builder::lines::split_nonblank_lines;
use instrumented_builder::paths::DrvFile;

#[test]
fn aggregate_fills_both_slots_and_keeps_source_order() {
    let events = vec![
        LogDatum::Source(String::from("/src/a.nix")),
        LogDatum::Primary(String::from("/nix/store/p.drv")),
        LogDatum::Text(b"noise".to_vec()),
        LogDatum::Source(String::from("/src/b.nix")),
        LogDatum::PrimaryGcRooted(String::from("/nix/store/g.drv")),
        LogDatum::Source(String::from("/src/a.nix")),
    ];
    let agg = aggregate(events).unwrap();
    assert_eq!(
        agg.output_paths.primary,
        Some(DrvFile(String::from("/nix/store/p.drv")))
    );
    assert_eq!(
        agg.output_paths.primary_gc_rooted,
        Some(DrvFile(String::from("/nix/store/g.drv")))
    );
    // Duplicates of source paths are allowed and preserved, in order.
    assert_eq!(
        agg.paths,
        vec![
            String::from("/src/a.nix"),
            String::from("/src/b.nix"),
            String::from("/src/a.nix")
        ]
    );
    assert_eq!(agg.log_lines, vec![b"noise".to_vec()]);
}

#[test]
fn aggregate_of_empty_stream_leaves_slots_empty() {
    let agg = aggregate(Vec::new()).unwrap();
    assert_eq!(agg.output_paths.primary, None);
    assert_eq!(agg.output_paths.primary_gc_rooted, None);
    assert!(agg.paths.is_empty());
    assert!(agg.log_lines.is_empty());
}

#[test]
fn duplicate_primary_is_fatal() {
    let events = vec![
        LogDatum::Primary(String::from("/nix/store/one.drv")),
        LogDatum::Primary(String::from("/nix/store/two.drv")),
    ];
    assert_eq!(
        aggregate(events).unwrap_err(),
        InternalError::DuplicatePrimary {
            first: String::from("/nix/store/one.drv"),
            second: String::from("/nix/store/two.drv"),
        }
    );
}

#[test]
fn duplicate_gc_rooted_is_fatal() {
    let events = vec![
        LogDatum::PrimaryGcRooted(String::from("/nix/store/one.drv")),
        LogDatum::PrimaryGcRooted(String::from("/nix/store/two.drv")),
    ];
    assert_eq!(
        aggregate(events).unwrap_err(),
        InternalError::DuplicatePrimaryGcRooted {
            first: String::from("/nix/store/one.drv"),
            second: String::from("/nix/store/two.drv"),
        }
    );
}

#[test]
fn split_drops_blank_lines_and_keeps_order() {
    let bytes = b"first\n\nsecond\nthird".to_vec();
    let lines = split_nonblank_lines(&bytes);
    assert_eq!(
        lines,
        vec![b"first".to_vec(), b"second".to_vec(), b"third".to_vec()]
    );
    assert_eq!(split_nonblank_lines(&b"\n\n".to_vec()), Vec::<Vec<u8>>::new());
    assert_eq!(split_nonblank_lines(&Vec::new()), Vec::<Vec<u8>>::new());
}

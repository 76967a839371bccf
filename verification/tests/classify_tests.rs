use instrumented_builder::classify::parse_evaluation_line;
use instrumented_builder::errors::InternalError;
use instrumented_builder::events::LogDatum;

fn line(s: &str) -> Vec<u8> {
    s.as_bytes().to_vec()
}

#[test]
fn test_evaluation_line_to_path_evaluation() {
    assert_eq!(
        parse_evaluation_line(&line(
            "evaluating file '/nix/store/zqxha3ax0w771jf25qdblakka83660gr-source/lib/systems/for-meta.nix'"
        )),
        Ok(LogDatum::Source(String::from(
            "/nix/store/zqxha3ax0w771jf25qdblakka83660gr-source/lib/systems/for-meta.nix"
        )))
    );

    assert_eq!(
        parse_evaluation_line(&line(
            "copied source '/nix/store/zqxha3ax0w771jf25qdblakka83660gr-source/pkgs/stdenv/generic/default-builder.sh' -> '/nix/store/9krlzvny65gdc8s7kpb6lkx8cd02c25b-default-builder.sh'"
        )),
        Ok(LogDatum::Source(String::from(
            "/nix/store/zqxha3ax0w771jf25qdblakka83660gr-source/pkgs/stdenv/generic/default-builder.sh"
        )))
    );

    assert_eq!(
        parse_evaluation_line(&line(
            "trace: read: '/home/grahamc/projects/grahamc/lorri/nix/nixpkgs.json'"
        )),
        Ok(LogDatum::Source(String::from(
            "/home/grahamc/projects/grahamc/lorri/nix/nixpkgs.json"
        )))
    );

    assert_eq!(
        parse_evaluation_line(&line(
            "trace: attribute: 'primary' -> '/nix/store/q3ngidzvincycjjvlilf1z6vj1w4wnas-lorri.drv'"
        )),
        Ok(LogDatum::Primary(String::from(
            "/nix/store/q3ngidzvincycjjvlilf1z6vj1w4wnas-lorri.drv"
        )))
    );

    assert_eq!(
        parse_evaluation_line(&line(
            "trace: attribute: 'primary_gc_rooted' -> '/nix/store/q3ngidzvincycjjvlilf1z6vj1w4wnas-lorri-keep-env-hack-foo.drv'"
        )),
        Ok(LogDatum::PrimaryGcRooted(String::from(
            "/nix/store/q3ngidzvincycjjvlilf1z6vj1w4wnas-lorri-keep-env-hack-foo.drv"
        )))
    );

    assert_eq!(
        parse_evaluation_line(&line(
            "downloading 'https://static.rust-lang.org/dist/channel-rust-stable.toml'..."
        )),
        Ok(LogDatum::Text(line(
            "downloading 'https://static.rust-lang.org/dist/channel-rust-stable.toml'..."
        )))
    );
}

#[test]
fn transitive_source_file_detection() -> std::io::Result<()> {
    Ok(())
}

#[test]
fn unknown_attribute_is_fatal() {
    assert_eq!(
        parse_evaluation_line(&line("trace: attribute: 'shell' -> '/nix/store/abc.drv'")),
        Err(InternalError::UnknownAttribute {
            attribute: String::from("shell"),
            store_path: String::from("/nix/store/abc.drv"),
        })
    );
}

#[test]
fn greedy_capture_takes_last_separator() {
    // The first capture is greedy: it runs to the last position at which the
    // rest of the pattern still matches.
    assert_eq!(
        parse_evaluation_line(&line("copied source '/a' -> 'x' -> '/b'")),
        Ok(LogDatum::Source(String::from("/a' -> 'x")))
    );
}

#[test]
fn attribute_line_without_store_path_is_opaque() {
    let l = line("trace: attribute: 'primary' -> 'not-a-store-path'");
    assert_eq!(parse_evaluation_line(&l), Ok(LogDatum::Text(l.clone())));
}

#[test]
fn unmatched_text_round_trips_unchanged() {
    let l = line("these 8 derivations will be built:");
    assert_eq!(parse_evaluation_line(&l), Ok(LogDatum::Text(l.clone())));
}

#[test]
fn invalid_utf8_round_trips_unchanged() {
    // 0xC3 followed by 0x28 is not a valid UTF-8 sequence.
    let l: Vec<u8> = vec![0xC3, 0x28, 0x65, 0x76, 0x61, 0x6C];
    assert_eq!(parse_evaluation_line(&l), Ok(LogDatum::Text(l.clone())));
}

#[test]
fn empty_capture_is_kept() {
    assert_eq!(
        parse_evaluation_line(&line("evaluating file ''")),
        Ok(LogDatum::Source(String::new()))
    );
}

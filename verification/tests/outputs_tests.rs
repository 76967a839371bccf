use instrumented_builder::errors::Error;
use instrumented_builder::errors::RealizeError;
use instrumented_builder::outputs::output_path_attr_names;
use instrumented_builder::outputs::OutputPaths;

#[test]
fn attr_names_match_the_wire_contract() {
    let names = output_path_attr_names();
    assert_eq!(names.primary, "primary");
    assert_eq!(names.primary_gc_rooted, "primary_gc_rooted");
}

#[test]
fn map_applies_to_both_slots() {
    let p = OutputPaths { primary: 1u32, primary_gc_rooted: 2u32 };
    let doubled = p.map(|x: u32| x.wrapping_mul(2));
    assert_eq!(doubled.primary, 2);
    assert_eq!(doubled.primary_gc_rooted, 4);
}

#[test]
fn map_res_short_circuits_on_the_primary_slot_first() {
    let p = OutputPaths { primary: 1u32, primary_gc_rooted: 2u32 };
    let r: Result<OutputPaths<u32>, String> = p.map_res(|x: u32| Err(format!("no {}", x)));
    assert_eq!(r.unwrap_err(), "no 1");

    let p = OutputPaths { primary: 1u32, primary_gc_rooted: 2u32 };
    let r: Result<OutputPaths<u32>, String> = p.map_res(|x: u32| {
        if x == 2 {
            Err(String::from("second slot failed"))
        } else {
            Ok(x)
        }
    });
    assert_eq!(r.unwrap_err(), "second slot failed");

    let p = OutputPaths { primary: 1u32, primary_gc_rooted: 2u32 };
    let r: Result<OutputPaths<u32>, String> = p.map_res(Ok);
    let ok = r.unwrap();
    assert_eq!(ok.primary, 1);
    assert_eq!(ok.primary_gc_rooted, 2);
}

#[test]
fn zip_pairs_corresponding_slots() {
    let a = OutputPaths { primary: 1u32, primary_gc_rooted: 2u32 };
    let b = OutputPaths { primary: "x", primary_gc_rooted: "y" };
    let z = a.zip(b);
    assert_eq!(z.primary, (1, "x"));
    assert_eq!(z.primary_gc_rooted, (2, "y"));
}

#[test]
fn error_conversions_pick_the_right_variant() {
    let io = std::io::Error::new(std::io::ErrorKind::NotFound, "nix-instantiate not found");
    assert!(matches!(Error::from(io), Error::Instantiate(_)));
    let realize = RealizeError { message: String::from("realization failed") };
    assert!(matches!(Error::from(realize), Error::Build(_)));
    let worker = Error::ThreadFailure(String::from("log worker died"));
    assert!(matches!(worker, Error::ThreadFailure(_)));
}

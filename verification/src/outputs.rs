//! The two named build outputs and their structural combinators.
//!
//! The instrumentation script emits exactly two named outputs, `primary`
//! and `primary_gc_rooted`; this fixed two-slot container holds one value
//! per slot. The slots are deliberately not a general collection: callers
//! pattern-match on both slots being present.

use vstd::prelude::*;

verus! {

/// One value per named build output.
#[derive(Debug, Clone)]
pub struct OutputPaths<T> {
    /// The plain build output.
    pub primary: T,
    /// The build output rewritten to be safe to pin as a GC root.
    pub primary_gc_rooted: T,
}

/// The attribute name under which each slot is announced in the
/// diagnostic stream.
pub fn output_path_attr_names() -> (r: OutputPaths<String>)
    ensures
        r.primary@ == "primary"@,
        r.primary_gc_rooted@ == "primary_gc_rooted"@,
{
    OutputPaths { primary: "primary".to_owned(), primary_gc_rooted: "primary_gc_rooted".to_owned() }
}

impl<T> OutputPaths<T> {
    /// Applies `f` to both slots independently, preserving slot identity.
    pub fn map<U, F: Fn(T) -> U>(self, f: F) -> (r: OutputPaths<U>)
        requires
            call_requires(f, (self.primary,)),
            call_requires(f, (self.primary_gc_rooted,)),
        ensures
            call_ensures(f, (self.primary,), r.primary),
            call_ensures(f, (self.primary_gc_rooted,), r.primary_gc_rooted),
    {
        let OutputPaths { primary, primary_gc_rooted } = self;
        OutputPaths { primary: f(primary), primary_gc_rooted: f(primary_gc_rooted) }
    }

    /// Like `map`, but for a fallible `f`: the first failure wins, and the
    /// `primary` slot is attempted first.
    pub fn map_res<U, E, F: Fn(T) -> Result<U, E>>(self, f: F) -> (r: Result<OutputPaths<U>, E>)
        requires
            call_requires(f, (self.primary,)),
            call_requires(f, (self.primary_gc_rooted,)),
        ensures
            match r {
                Ok(o) => call_ensures(f, (self.primary,), Ok(o.primary)) && call_ensures(
                    f,
                    (self.primary_gc_rooted,),
                    Ok(o.primary_gc_rooted),
                ),
                Err(e) => call_ensures(f, (self.primary,), Err(e)) || ((exists|u: U|
                    call_ensures(f, (self.primary,), Ok(u))) && call_ensures(
                    f,
                    (self.primary_gc_rooted,),
                    Err(e),
                )),
            },
    {
        let OutputPaths { primary, primary_gc_rooted } = self;
        let p = match f(primary) {
            Ok(p) => p,
            Err(e) => {
                return Err(e);
            },
        };
        let ghost p_snap = p;
        let g = match f(primary_gc_rooted) {
            Ok(g) => g,
            Err(e) => {
                proof {
                    assert(call_ensures(f, (self.primary,), Ok(p_snap)));
                }
                return Err(e);
            },
        };
        Ok(OutputPaths { primary: p, primary_gc_rooted: g })
    }

    /// Pairs up corresponding slots of two containers.
    pub fn zip<U>(self, us: OutputPaths<U>) -> (r: OutputPaths<(T, U)>)
        ensures
            r.primary == (self.primary, us.primary),
            r.primary_gc_rooted == (self.primary_gc_rooted, us.primary_gc_rooted),
    {
        let OutputPaths { primary, primary_gc_rooted } = self;
        let OutputPaths { primary: up, primary_gc_rooted: ug } = us;
        OutputPaths { primary: (primary, up), primary_gc_rooted: (primary_gc_rooted, ug) }
    }
}

} // verus!

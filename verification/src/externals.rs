//! Declarations of the outside types the library carries, and the trusted
//! wrappers around the nonempty-vector collection.

use vstd::prelude::*;

use crate::paths::StorePath;

verus! {

#[verifier::external_type_specification]
#[verifier::external_body]
#[verifier::reject_recursive_types(I)]
pub struct ExVec1<I>(vec1::Vec1<I>);

#[verifier::external_type_specification]
#[verifier::external_body]
pub struct ExTempDir(tempfile::TempDir);

/// The temporary directory hosting the indirect GC root of one
/// instantiation. Dropping it releases the underlying directory and with it
/// the anchor, unless the caller promoted the path to a durable root first.
#[derive(Debug)]
pub struct GcRootTempDir(pub tempfile::TempDir);

/// The store paths a nonempty produced-path vector holds, in order.
pub uninterp spec fn produced_elems(v: vec1::Vec1<StorePath>) -> Seq<StorePath>;

/// Relies on vec1::Vec1::try_from_vec: it succeeds exactly on nonempty
/// input and keeps the elements as they are, in order.
#[verifier::external_body]
pub fn produced_from_vec(v: Vec<StorePath>) -> (r: Option<vec1::Vec1<StorePath>>)
    ensures
        match r {
            Some(p) => v@.len() > 0 && produced_elems(p) == v@,
            None => v@.len() == 0,
        },
{
    vec1::Vec1::try_from_vec(v).ok()
}

/// Relies on vec1::Vec1::new: a vector of exactly the one given element.
#[verifier::external_body]
pub fn produced_single(x: StorePath) -> (r: vec1::Vec1<StorePath>)
    ensures
        produced_elems(r) == seq![x],
{
    vec1::Vec1::new(x)
}

/// Relies on vec1::Vec1::as_vec: a borrow of the elements as a plain
/// vector, unchanged.
#[verifier::external_body]
pub fn produced_as_vec(v: &vec1::Vec1<StorePath>) -> (r: &Vec<StorePath>)
    ensures
        r@ == produced_elems(*v),
{
    v.as_vec()
}

} // verus!

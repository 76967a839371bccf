//! Path-like handles this library hands around.

use vstd::prelude::*;

verus! {

/// An unrealized build-output identifier: the store path of a derivation
/// file, as it stood in a diagnostic trace line.
#[derive(Debug, Clone, PartialEq, Eq)]
pub struct DrvFile(pub String);

impl View for DrvFile {
    type V = Seq<char>;

    open spec fn view(&self) -> Seq<char> {
        self.0@
    }
}

impl DrvFile {
    pub fn as_path(&self) -> (r: &String)
        ensures
            r@ == self@,
    {
        &self.0
    }
}

/// A store path read from the machine-readable output stream. The stream is
/// raw bytes, so the path is kept as the bytes of its line, unchanged.
#[derive(Debug, Clone, PartialEq, Eq)]
pub struct StorePath(pub Vec<u8>);

impl View for StorePath {
    type V = Seq<u8>;

    open spec fn view(&self) -> Seq<u8> {
        self.0@
    }
}

impl DeepView for StorePath {
    type V = Seq<u8>;

    open spec fn deep_view(&self) -> Seq<u8> {
        self.0@
    }
}

/// The byte views of a sequence of store paths, in order.
pub open spec fn store_views(s: Seq<StorePath>) -> Seq<Seq<u8>> {
    s.map_values(|p: StorePath| p@)
}

} // verus!

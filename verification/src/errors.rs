//! The error taxonomy.
//!
//! `Error` covers the recoverable failures a caller is expected to handle:
//! the instantiation subprocess could not be run, the realization step
//! failed, or an offloaded log-processing task died. `InternalError` is the
//! fatal kind: the instrumentation script and this library have drifted out
//! of sync, and recovery would silently misreport the watch set, so callers
//! must halt with the offending values instead.

use vstd::prelude::*;

verus! {

/// A fatal internal-consistency violation of the instrumentation contract.
#[derive(Debug, PartialEq, Eq)]
pub enum InternalError {
    /// An attribute trace line named an attribute this library does not know.
    UnknownAttribute { attribute: String, store_path: String },
    /// The `primary` output was emitted a second time.
    DuplicatePrimary { first: String, second: String },
    /// The `primary_gc_rooted` output was emitted a second time.
    DuplicatePrimaryGcRooted { first: String, second: String },
    /// The run succeeded but never emitted the `primary` output.
    MissingPrimary,
    /// The run succeeded but never emitted the `primary_gc_rooted` output.
    MissingPrimaryGcRooted,
    /// The machine-readable output of a completed run held no store path.
    NoProducedPaths,
}

/// Mathematical model of an `InternalError`.
pub enum InternalErrorV {
    UnknownAttribute(Seq<char>, Seq<char>),
    DuplicatePrimary(Seq<char>, Seq<char>),
    DuplicatePrimaryGcRooted(Seq<char>, Seq<char>),
    MissingPrimary,
    MissingPrimaryGcRooted,
    NoProducedPaths,
}

impl View for InternalError {
    type V = InternalErrorV;

    open spec fn view(&self) -> InternalErrorV {
        match self {
            InternalError::UnknownAttribute { attribute, store_path } => {
                InternalErrorV::UnknownAttribute(attribute@, store_path@)
            },
            InternalError::DuplicatePrimary { first, second } => {
                InternalErrorV::DuplicatePrimary(first@, second@)
            },
            InternalError::DuplicatePrimaryGcRooted { first, second } => {
                InternalErrorV::DuplicatePrimaryGcRooted(first@, second@)
            },
            InternalError::MissingPrimary => InternalErrorV::MissingPrimary,
            InternalError::MissingPrimaryGcRooted => InternalErrorV::MissingPrimaryGcRooted,
            InternalError::NoProducedPaths => InternalErrorV::NoProducedPaths,
        }
    }
}

/// What the external realization collaborator reported when it failed.
#[derive(Debug, PartialEq, Eq)]
pub struct RealizeError {
    pub message: String,
}

/// A recoverable failure of one evaluation run.
#[derive(Debug)]
pub enum Error {
    /// Spawning or communicating with the instantiation subprocess failed.
    Instantiate(std::io::Error),
    /// The realization step failed.
    Build(RealizeError),
    /// An offloaded log-processing task failed unexpectedly.
    ThreadFailure(String),
}

#[verifier::external_type_specification]
#[verifier::external_body]
pub struct ExIoError(std::io::Error);

impl From<std::io::Error> for Error {
    fn from(e: std::io::Error) -> (r: Error)
        ensures
            r == Error::Instantiate(e),
    {
        Error::Instantiate(e)
    }
}

impl vstd::std_specs::convert::FromSpecImpl<std::io::Error> for Error {
    open spec fn obeys_from_spec() -> bool {
        true
    }

    open spec fn from_spec(e: std::io::Error) -> Error {
        Error::Instantiate(e)
    }
}

impl From<RealizeError> for Error {
    fn from(e: RealizeError) -> (r: Error)
        ensures
            r == Error::Build(e),
    {
        Error::Build(e)
    }
}

impl vstd::std_specs::convert::FromSpecImpl<RealizeError> for Error {
    open spec fn obeys_from_spec() -> bool {
        true
    }

    open spec fn from_spec(e: RealizeError) -> Error {
        Error::Build(e)
    }
}

} // verus!

//! Structured events read out of the subprocess's diagnostic stream.
//!
//! Each diagnostic line is classified into exactly one `LogDatum`: a source
//! path the evaluation touched, one of the two named build outputs the
//! instrumentation emits, or an opaque text line kept byte-for-byte.

use vstd::prelude::*;

verus! {

/// One classified diagnostic line.
#[derive(Debug, Clone, PartialEq, Eq)]
pub enum LogDatum {
    /// A filesystem path the evaluation read or copied.
    Source(String),
    /// The `primary` named output, as an unrealized store path.
    Primary(String),
    /// The `primary_gc_rooted` named output, as an unrealized store path.
    PrimaryGcRooted(String),
    /// A line carrying no recognized pattern, kept unchanged as raw bytes.
    Text(Vec<u8>),
}

/// Mathematical model of a `LogDatum`.
pub enum EventV {
    Source(Seq<char>),
    Primary(Seq<char>),
    PrimaryGcRooted(Seq<char>),
    Text(Seq<u8>),
}

impl View for LogDatum {
    type V = EventV;

    open spec fn view(&self) -> EventV {
        match self {
            LogDatum::Source(p) => EventV::Source(p@),
            LogDatum::Primary(p) => EventV::Primary(p@),
            LogDatum::PrimaryGcRooted(p) => EventV::PrimaryGcRooted(p@),
            LogDatum::Text(b) => EventV::Text(b@),
        }
    }
}

impl DeepView for LogDatum {
    type V = EventV;

    open spec fn deep_view(&self) -> EventV {
        self.view()
    }
}

} // verus!

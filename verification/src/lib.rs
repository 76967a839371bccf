//! Builds a declarative build description (like a `shell.nix` file) in two
//! instrumented phases, reporting every source file the evaluation touched
//! and which named outputs it produced — even when the build fails.
//!
//! The library holds the verified core: the line classifier, the output
//! path decoder, the stream aggregator, the two-phase decision logic and
//! the result and error model. Spawning the subprocesses, materializing the
//! instrumentation script and realizing the final path are I/O and live
//! with the caller.

pub mod aggregate;
pub mod builder;
pub mod classify;
pub mod classify_laws;
pub mod errors;
pub mod events;
pub mod externals;
pub mod lines;
pub mod outputs;
pub mod paths;

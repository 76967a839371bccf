//! The two-phase orchestrator's decision core.
//!
//! Phase one runs the evaluator with instrumentation and captures its exit
//! status, stdout and stderr whole; `evaluate_instantiation` turns those
//! captures into the typed outcome. On a failing exit status the outcome is
//! a `Failure` carrying the status and the full ordered transcript, and
//! phase two is never attempted. On success both named outputs must be
//! present — anything else is a fatal internal-consistency violation — and
//! the caller realizes the `primary_gc_rooted` handle; `finish_build` then
//! assembles the final result around the realized path, preserving the
//! ordered source-path list untouched.

use vstd::prelude::*;

use crate::aggregate::aggregate;
use crate::aggregate::aggregate_events;
use crate::classify::classify_lines;
use crate::classify::classify_stream;
use crate::errors::InternalError;
use crate::errors::InternalErrorV;
use crate::events::LogDatum;
use crate::externals::GcRootTempDir;
use crate::externals::produced_elems;
use crate::externals::produced_from_vec;
use crate::externals::produced_single;
use crate::lines::split_lines;
use crate::lines::split_nonblank_lines;
use crate::outputs::OutputPaths;
use crate::paths::DrvFile;
use crate::paths::StorePath;
use crate::paths::store_views;

verus! {

/// How the instantiation subprocess terminated: its exit code, or `None`
/// when it was ended by a signal and reported no code.
#[derive(Clone, Copy, PartialEq, Eq, Structural, Debug)]
pub struct ExitStatus {
    pub code: Option<i32>,
}

impl ExitStatus {
    /// The subprocess counts as successful exactly when it exited with code
    /// zero.
    pub open spec fn spec_success(self) -> bool {
        self.code == Some(0i32)
    }

    pub fn success(&self) -> (r: bool)
        ensures
            r == self.spec_success(),
    {
        match self.code {
            Some(c) => c == 0,
            None => false,
        }
    }
}

/// The result of one instantiation or build: even when the exit code is not
/// zero there is still valuable information in the output, like new paths
/// to watch.
#[derive(Debug)]
pub enum Info<T> {
    /// The subprocess ran successfully.
    Success(Success<T>),
    /// The subprocess returned a failing status code.
    Failure(Failure),
}

/// A successful run.
#[derive(Debug)]
pub struct Success<T> {
    /// The two named build outputs.
    pub output_paths: T,
    /// The produced store paths of the machine-readable stream, with the
    /// temporary directory anchoring their GC root.
    ///
    /// After phase two this list is redundant with the realized output; both
    /// slots and this list are kept for compatibility with the
    /// instrumentation contract, though a future revision could simplify
    /// them away.
    pub drvs: (vec1::Vec1<StorePath>, GcRootTempDir),
    /// Every source path examined during the evaluation, in order.
    pub paths: Vec<String>,
}

/// A failing run.
#[derive(Debug)]
pub struct Failure {
    /// The failing exit status.
    pub exec_result: ExitStatus,
    /// The full diagnostic transcript, in emission order.
    pub log_lines: Vec<Vec<u8>>,
}

/// Mathematical model of a phase-one outcome.
pub enum InstOutcomeV {
    Success {
        primary: Seq<char>,
        primary_gc_rooted: Seq<char>,
        produced: Seq<Seq<u8>>,
        sources: Seq<Seq<char>>,
    },
    Failure { status: ExitStatus, log_lines: Seq<Seq<u8>> },
}

/// What phase one's captured exit status, stdout and stderr must become.
///
/// The diagnostic stream is classified line by line and aggregated; the
/// machine-readable stream must hold at least one store path whenever the
/// subprocess ran at all; and only a run that exited successfully is held
/// to the requirement that both named outputs were emitted.
pub open spec fn spec_instantiation(status: ExitStatus, stdout: Seq<u8>, stderr: Seq<u8>) -> Result<
    InstOutcomeV,
    InternalErrorV,
> {
    match classify_stream(split_lines(stderr)) {
        Err(e) => Err(e),
        Ok(evs) => {
            if split_lines(stdout).len() == 0 {
                Err(InternalErrorV::NoProducedPaths)
            } else {
                match aggregate_events(evs) {
                    Err(e) => Err(e),
                    Ok(agg) => {
                        if !status.spec_success() {
                            Ok(
                                InstOutcomeV::Failure {
                                    status,
                                    log_lines: split_lines(stderr),
                                },
                            )
                        } else if agg.primary is None {
                            Err(InternalErrorV::MissingPrimary)
                        } else if agg.primary_gc_rooted is None {
                            Err(InternalErrorV::MissingPrimaryGcRooted)
                        } else {
                            Ok(
                                InstOutcomeV::Success {
                                    primary: agg.primary->0,
                                    primary_gc_rooted: agg.primary_gc_rooted->0,
                                    produced: split_lines(stdout),
                                    sources: agg.sources,
                                },
                            )
                        }
                    },
                }
            }
        },
    }
}

/// How an executable outcome realizes its model: field for field, with the
/// GC-root directory carried through unchanged.
pub open spec fn info_matches(
    info: Info<OutputPaths<DrvFile>>,
    o: InstOutcomeV,
    gc_root: GcRootTempDir,
) -> bool {
    match info {
        Info::Success(s) => o matches InstOutcomeV::Success {
            primary,
            primary_gc_rooted,
            produced,
            sources,
        } && {
            &&& s.output_paths.primary@ == primary
            &&& s.output_paths.primary_gc_rooted@ == primary_gc_rooted
            &&& store_views(produced_elems(s.drvs.0)) == produced
            &&& s.drvs.1 == gc_root
            &&& s.paths.deep_view() == sources
        },
        Info::Failure(f) => o matches InstOutcomeV::Failure { status, log_lines } && {
            &&& f.exec_result == status
            &&& f.log_lines.deep_view() == log_lines
        },
    }
}

/// Splits the machine-readable stdout stream into store paths, one per
/// nonblank line, in order.
pub fn decode_output_paths(stdout: &Vec<u8>) -> (r: Vec<StorePath>)
    ensures
        store_views(r@) == split_lines(stdout@),
        r.deep_view() == split_lines(stdout@),
{
    let lines = split_nonblank_lines(stdout);
    let mut r: Vec<StorePath> = Vec::new();
    let mut i: usize = 0;
    while i < lines.len()
        invariant
            i <= lines@.len(),
            r@.len() == i,
            forall|k: int| 0 <= k < i ==> r@[k]@ == lines@[k]@,
        decreases lines@.len() - i,
    {
        r.push(StorePath(lines[i].clone()));
        assert(r@[i as int]@ =~= lines@[i as int]@);
        i = i + 1;
    }
    proof {
        assert(forall|k: int|
            0 <= k < lines@.len() ==> #[trigger] lines.deep_view()[k] =~= lines@[k]@);
        assert(store_views(r@) =~= lines.deep_view());
        assert(r.deep_view() =~= lines.deep_view());
    }
    r
}

/// Turns phase one's captured exit status and output streams into the typed
/// outcome, or the fatal violation that stops everything.
///
/// The temporary GC-root directory of the run rides along into a successful
/// outcome; on a failure or a violation it is dropped here, which releases
/// the anchor.
pub fn evaluate_instantiation(
    status: ExitStatus,
    stdout: &Vec<u8>,
    stderr: &Vec<u8>,
    gc_root: GcRootTempDir,
) -> (r: Result<Info<OutputPaths<DrvFile>>, InternalError>)
    ensures
        match r {
            Ok(info) => spec_instantiation(status, stdout@, stderr@) matches Ok(o) && info_matches(
                info,
                o,
                gc_root,
            ),
            Err(e) => spec_instantiation(status, stdout@, stderr@) == Err::<
                InstOutcomeV,
                InternalErrorV,
            >(e@),
        },
{
    let stderr_lines = split_nonblank_lines(stderr);
    let events: Vec<LogDatum> = match classify_lines(&stderr_lines) {
        Ok(evs) => evs,
        Err(e) => {
            return Err(e);
        },
    };
    let produced_vec = decode_output_paths(stdout);
    let produced = match produced_from_vec(produced_vec) {
        Some(p) => p,
        None => {
            return Err(InternalError::NoProducedPaths);
        },
    };
    let agg = match aggregate(events) {
        Ok(a) => a,
        Err(e) => {
            return Err(e);
        },
    };
    if !status.success() {
        return Ok(Info::Failure(Failure { exec_result: status, log_lines: stderr_lines }));
    }
    let primary = match agg.output_paths.primary {
        Some(p) => p,
        None => {
            return Err(InternalError::MissingPrimary);
        },
    };
    let primary_gc_rooted = match agg.output_paths.primary_gc_rooted {
        Some(g) => g,
        None => {
            return Err(InternalError::MissingPrimaryGcRooted);
        },
    };
    proof {
        assert(store_views(produced_elems(produced)) =~= split_lines(stdout@));
    }
    Ok(
        Info::Success(
            Success {
                output_paths: OutputPaths { primary, primary_gc_rooted },
                drvs: (produced, gc_root),
                paths: agg.paths,
            },
        ),
    )
}

/// Assembles the final result of a whole run after phase two realized the
/// `primary_gc_rooted` handle: the realized path becomes both the singular
/// primary artifact and the produced-path list, the durable root token
/// replaces the phase-one anchor, and the ordered source-path list is kept
/// untouched.
pub fn finish_build(
    success: Success<OutputPaths<DrvFile>>,
    realized: StorePath,
    root: GcRootTempDir,
) -> (r: Info<StorePath>)
    ensures
        r matches Info::Success(s) && {
            &&& s.output_paths@ == realized@
            &&& store_views(produced_elems(s.drvs.0)) == seq![realized@]
            &&& s.drvs.1 == root
            &&& s.paths.deep_view() == success.paths.deep_view()
        },
{
    let copy = StorePath(realized.0.clone());
    let produced = produced_single(copy);
    proof {
        assert(store_views(produced_elems(produced)) =~= seq![realized@]);
    }
    Info::Success(
        Success { output_paths: realized, drvs: (produced, root), paths: success.paths },
    )
}

} // verus!

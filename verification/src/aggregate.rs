//! The stream aggregator: a single left-to-right fold over the classified
//! diagnostic events.
//!
//! The fold accumulates the source paths in discovery order (duplicates
//! kept), fills the two named-output slots with set-once semantics, and
//! collects the opaque text lines in order. A second assignment to an
//! already-filled slot is the fatal duplicate-attribute violation: the
//! instrumentation script is defined to emit each named attribute at most
//! once, so a duplicate means the script and this library have drifted
//! apart.

use vstd::prelude::*;

use crate::errors::InternalError;
use crate::errors::InternalErrorV;
use crate::events::EventV;
use crate::events::LogDatum;
use crate::outputs::OutputPaths;
use crate::paths::DrvFile;

verus! {

/// Mathematical model of the aggregator's accumulated state.
#[verifier::ext_equal]
pub struct AggV {
    pub sources: Seq<Seq<char>>,
    pub primary: Option<Seq<char>>,
    pub primary_gc_rooted: Option<Seq<char>>,
    pub log_lines: Seq<Seq<u8>>,
}

pub open spec fn agg_empty() -> AggV {
    AggV {
        sources: Seq::empty(),
        primary: None,
        primary_gc_rooted: None,
        log_lines: Seq::empty(),
    }
}

/// One step of the fold: how a single event changes the accumulated state,
/// or the duplicate-assignment violation it raises.
pub open spec fn agg_step(st: AggV, ev: EventV) -> Result<AggV, InternalErrorV> {
    match ev {
        EventV::Source(p) => Ok(AggV { sources: st.sources.push(p), ..st }),
        EventV::Primary(p) => match st.primary {
            None => Ok(AggV { primary: Some(p), ..st }),
            Some(q) => Err(InternalErrorV::DuplicatePrimary(q, p)),
        },
        EventV::PrimaryGcRooted(p) => match st.primary_gc_rooted {
            None => Ok(AggV { primary_gc_rooted: Some(p), ..st }),
            Some(q) => Err(InternalErrorV::DuplicatePrimaryGcRooted(q, p)),
        },
        EventV::Text(b) => Ok(AggV { log_lines: st.log_lines.push(b), ..st }),
    }
}

/// The whole fold, left to right, stopping at the first violation.
pub open spec fn agg_fold(st: AggV, evs: Seq<EventV>) -> Result<AggV, InternalErrorV>
    decreases evs.len(),
{
    if evs.len() == 0 {
        Ok(st)
    } else {
        match agg_step(st, evs.first()) {
            Err(e) => Err(e),
            Ok(st2) => agg_fold(st2, evs.drop_first()),
        }
    }
}

/// What aggregating a whole event stream yields.
pub open spec fn aggregate_events(evs: Seq<EventV>) -> Result<AggV, InternalErrorV> {
    agg_fold(agg_empty(), evs)
}

/// The accumulated results of one diagnostic stream.
#[derive(Debug)]
pub struct Aggregate {
    /// Every source path, in discovery order, duplicates kept.
    pub paths: Vec<String>,
    /// The named-output slots; `None` where the stream never filled one.
    pub output_paths: OutputPaths<Option<DrvFile>>,
    /// Every opaque text line, in emission order.
    pub log_lines: Vec<Vec<u8>>,
}

impl View for Aggregate {
    type V = AggV;

    open spec fn view(&self) -> AggV {
        AggV {
            sources: self.paths.deep_view(),
            primary: match self.output_paths.primary {
                Some(ref d) => Some(d@),
                None => None,
            },
            primary_gc_rooted: match self.output_paths.primary_gc_rooted {
                Some(ref d) => Some(d@),
                None => None,
            },
            log_lines: self.log_lines.deep_view(),
        }
    }
}

/// Folds the classified events into the accumulated state, or reports the
/// first duplicate-assignment violation.
pub fn aggregate(events: Vec<LogDatum>) -> (r: Result<Aggregate, InternalError>)
    ensures
        match r {
            Ok(a) => aggregate_events(events.deep_view()) == Ok::<AggV, InternalErrorV>(a@),
            Err(e) => aggregate_events(events.deep_view()) == Err::<AggV, InternalErrorV>(e@),
        },
{
    let ghost evs = events.deep_view();
    let mut agg = Aggregate {
        paths: Vec::new(),
        output_paths: OutputPaths { primary: None, primary_gc_rooted: None },
        log_lines: Vec::new(),
    };
    let mut i: usize = 0;
    assert(agg@ =~= agg_empty());
    assert(evs.skip(0) =~= evs);
    while i < events.len()
        invariant
            i <= events@.len(),
            evs == events.deep_view(),
            aggregate_events(evs) == agg_fold(agg@, evs.skip(i as int)),
        decreases events@.len() - i,
    {
        let ghost rest = evs.skip(i as int);
        proof {
            assert(rest.first() == events@[i as int].deep_view());
            assert(rest.drop_first() =~= evs.skip(i + 1));
        }
        let ghost st = agg@;
        match &events[i] {
            LogDatum::Source(p) => {
                agg.paths.push(p.clone());
                assert(agg@ =~~= (AggV { sources: st.sources.push(p@), ..st }));
            },
            LogDatum::Primary(p) => {
                match agg.output_paths.primary {
                    None => {
                        agg.output_paths.primary = Some(DrvFile(p.clone()));
                        assert(agg@ =~~= (AggV { primary: Some(p@), ..st }));
                    },
                    Some(ref q) => {
                        return Err(InternalError::DuplicatePrimary {
                            first: q.0.clone(),
                            second: p.clone(),
                        });
                    },
                }
            },
            LogDatum::PrimaryGcRooted(p) => {
                match agg.output_paths.primary_gc_rooted {
                    None => {
                        agg.output_paths.primary_gc_rooted = Some(DrvFile(p.clone()));
                        assert(agg@ =~~= (AggV { primary_gc_rooted: Some(p@), ..st }));
                    },
                    Some(ref q) => {
                        return Err(InternalError::DuplicatePrimaryGcRooted {
                            first: q.0.clone(),
                            second: p.clone(),
                        });
                    },
                }
            },
            LogDatum::Text(b) => {
                agg.log_lines.push(b.clone());
                assert(agg@ =~~= (AggV { log_lines: st.log_lines.push(b@), ..st }));
            },
        }
        i = i + 1;
    }
    proof {
        assert(evs.skip(i as int) =~= Seq::<EventV>::empty());
    }
    Ok(agg)
}

/// Number of `primary` events in a stream, with their payloads in order.
pub open spec fn primary_paths(evs: Seq<EventV>) -> Seq<Seq<char>>
    decreases evs.len(),
{
    if evs.len() == 0 {
        Seq::empty()
    } else {
        (match evs.first() {
            EventV::Primary(p) => seq![p],
            _ => Seq::empty(),
        }) + primary_paths(evs.drop_first())
    }
}

/// Number of `primary_gc_rooted` events in a stream, with their payloads in
/// order.
pub open spec fn gc_rooted_paths(evs: Seq<EventV>) -> Seq<Seq<char>>
    decreases evs.len(),
{
    if evs.len() == 0 {
        Seq::empty()
    } else {
        (match evs.first() {
            EventV::PrimaryGcRooted(p) => seq![p],
            _ => Seq::empty(),
        }) + gc_rooted_paths(evs.drop_first())
    }
}

/// The source paths of a stream, in order.
pub open spec fn source_paths(evs: Seq<EventV>) -> Seq<Seq<char>>
    decreases evs.len(),
{
    if evs.len() == 0 {
        Seq::empty()
    } else {
        (match evs.first() {
            EventV::Source(p) => seq![p],
            _ => Seq::empty(),
        }) + source_paths(evs.drop_first())
    }
}

/// The opaque text lines of a stream, in order.
pub open spec fn text_lines(evs: Seq<EventV>) -> Seq<Seq<u8>>
    decreases evs.len(),
{
    if evs.len() == 0 {
        Seq::empty()
    } else {
        (match evs.first() {
            EventV::Text(b) => seq![b],
            _ => Seq::empty(),
        }) + text_lines(evs.drop_first())
    }
}

spec fn opt_count(o: Option<Seq<char>>) -> int {
    if o is Some {
        1
    } else {
        0
    }
}

proof fn lemma_agg_fold_ok(st: AggV, evs: Seq<EventV>)
    requires
        opt_count(st.primary) + primary_paths(evs).len() <= 1,
        opt_count(st.primary_gc_rooted) + gc_rooted_paths(evs).len() <= 1,
    ensures
        agg_fold(st, evs) matches Ok(a) && {
            &&& a.sources == st.sources + source_paths(evs)
            &&& a.log_lines == st.log_lines + text_lines(evs)
            &&& a.primary == (if primary_paths(evs).len() > 0 {
                Some(primary_paths(evs)[0])
            } else {
                st.primary
            })
            &&& a.primary_gc_rooted == (if gc_rooted_paths(evs).len() > 0 {
                Some(gc_rooted_paths(evs)[0])
            } else {
                st.primary_gc_rooted
            })
        },
    decreases evs.len(),
{
    if evs.len() == 0 {
        assert(st.sources + source_paths(evs) =~= st.sources);
        assert(st.log_lines + text_lines(evs) =~= st.log_lines);
    } else {
        let st2 = agg_step(st, evs.first())->Ok_0;
        lemma_agg_fold_ok(st2, evs.drop_first());
        let a = agg_fold(st2, evs.drop_first())->Ok_0;
        assert(a.sources =~= st.sources + source_paths(evs));
        assert(a.log_lines =~= st.log_lines + text_lines(evs));
    }
}

proof fn lemma_agg_fold_err(st: AggV, evs: Seq<EventV>)
    requires
        opt_count(st.primary) + primary_paths(evs).len() >= 2 || opt_count(st.primary_gc_rooted)
            + gc_rooted_paths(evs).len() >= 2,
    ensures
        agg_fold(st, evs) is Err,
    decreases evs.len(),
{
    if evs.len() == 0 {
    } else {
        match agg_step(st, evs.first()) {
            Err(e) => {},
            Ok(st2) => {
                lemma_agg_fold_err(st2, evs.drop_first());
            },
        }
    }
}

/// Law: aggregating a stream with exactly one `primary` event, exactly one
/// `primary_gc_rooted` event, and any number of source-path events yields
/// fully populated named-output slots and keeps every source path, in the
/// original order.
pub proof fn lemma_aggregate_unique_outputs(evs: Seq<EventV>)
    requires
        primary_paths(evs).len() == 1,
        gc_rooted_paths(evs).len() == 1,
    ensures
        aggregate_events(evs) matches Ok(a) && {
            &&& a.primary == Some(primary_paths(evs)[0])
            &&& a.primary_gc_rooted == Some(gc_rooted_paths(evs)[0])
            &&& a.sources == source_paths(evs)
            &&& a.log_lines == text_lines(evs)
        },
{
    lemma_agg_fold_ok(agg_empty(), evs);
    let a = aggregate_events(evs)->Ok_0;
    assert(a.sources =~= source_paths(evs));
    assert(a.log_lines =~= text_lines(evs));
}

/// Law: a stream that carries the same named output twice — in particular
/// two `primary` events — cannot aggregate; it is the fatal
/// duplicate-assignment violation.
pub proof fn lemma_aggregate_duplicate(evs: Seq<EventV>)
    requires
        primary_paths(evs).len() >= 2 || gc_rooted_paths(evs).len() >= 2,
    ensures
        aggregate_events(evs) is Err,
{
    lemma_agg_fold_err(agg_empty(), evs);
}

/// Law: aggregation succeeds exactly when no named output appears twice.
pub proof fn lemma_aggregate_ok_iff(evs: Seq<EventV>)
    ensures
        aggregate_events(evs) is Ok <==> (primary_paths(evs).len() <= 1 && gc_rooted_paths(
            evs,
        ).len() <= 1),
{
    if primary_paths(evs).len() <= 1 && gc_rooted_paths(evs).len() <= 1 {
        lemma_agg_fold_ok(agg_empty(), evs);
    } else {
        lemma_agg_fold_err(agg_empty(), evs);
    }
}

} // verus!

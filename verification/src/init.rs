//! Process-wide, exactly-once initialization of the engine and its
//! collector.
//!
//! The underlying initialization routine (marking the collector willing to
//! register threads dynamically, then the engine's library-initialization
//! entry point) is not safe or meaningful to repeat, so its outcome —
//! success or failure alike — is resolved once and cached for the process
//! lifetime. The embedding program holds one [`InitCache`] behind a
//! process-global, thread-safe cell that serializes the very first callers;
//! this module holds the decision logic: when the underlying routine runs,
//! what is cached, and what every caller observes.

use vstd::prelude::*;
use vstd::string::StringExecFns;

use crate::errors::{EngineError, InitError};

verus! {

broadcast use vstd::seq::group_seq_axioms;

/// The cached state of process-wide initialization.
pub enum InitStatus {
    /// No caller has resolved initialization yet.
    Uninitialized,
    /// The underlying routine ran and succeeded.
    Success,
    /// The underlying routine ran and failed with this message.
    Failure(String),
}

/// The mathematical model of an [`InitStatus`].
pub enum InitStatusView {
    Uninitialized,
    Success,
    Failure(Seq<char>),
}

impl View for InitStatus {
    type V = InitStatusView;

    open spec fn view(&self) -> InitStatusView {
        match self {
            InitStatus::Uninitialized => InitStatusView::Uninitialized,
            InitStatus::Success => InitStatusView::Success,
            InitStatus::Failure(m) => InitStatusView::Failure(m@),
        }
    }
}

/// The process-wide initialization cache: created once per process,
/// written once, then read by every later caller.
pub struct InitCache {
    pub status: InitStatus,
}

/// What one run of the underlying initialization routine reports: `Ok`, or
/// the engine's failure message.
pub open spec fn spec_outcome_view(outcome: Result<(), EngineError>) -> Result<(), Seq<char>> {
    match outcome {
        Ok(u) => Ok(u),
        Err(e) => Err(e.message@),
    }
}

/// The status that caching a fresh outcome resolves to.
pub open spec fn spec_resolved(outcome: Result<(), Seq<char>>) -> InitStatusView {
    match outcome {
        Ok(u) => InitStatusView::Success,
        Err(m) => InitStatusView::Failure(m),
    }
}

/// Whether a call that finds the cache in status `s` runs the underlying
/// initialization routine.
pub open spec fn spec_init_runs(s: InitStatusView) -> bool {
    s is Uninitialized
}

/// The cache status after one complete `init` call that found status `s`,
/// where `fresh` is the outcome the underlying routine reports if this call
/// runs it: the first caller resolves the cache, every other caller leaves
/// it untouched.
pub open spec fn spec_init_step(s: InitStatusView, fresh: Result<(), Seq<char>>) -> InitStatusView {
    if spec_init_runs(s) {
        spec_resolved(fresh)
    } else {
        s
    }
}

impl InitCache {
    /// A fresh cache, before any initialization attempt.
    pub fn new() -> (r: InitCache)
        ensures
            r.status@ is Uninitialized,
    {
        InitCache { status: InitStatus::Uninitialized }
    }

    /// Whether the underlying initialization routine still has to run.
    pub fn needs_run(&self) -> (b: bool)
        ensures
            b == spec_init_runs(self.status@),
    {
        match &self.status {
            InitStatus::Uninitialized => true,
            InitStatus::Success => false,
            InitStatus::Failure(m) => false,
        }
    }
}

/// One complete initialization call.
///
/// `fresh` is the report of the underlying initialization routine, run by
/// this caller — and it is supplied exactly when the cache is unresolved, so
/// the routine's side effects happen at most once per process. A caller that
/// finds the cache resolved passes `None` and observes the cached outcome;
/// a cached failure is reproduced from its stored message, never retried.
pub fn init(cache: &mut InitCache, fresh: Option<Result<(), EngineError>>) -> (r: Result<
    (),
    InitError,
>)
    requires
        (old(cache).status@ is Uninitialized) <==> (fresh is Some),
    ensures
        !(final(cache).status@ is Uninitialized),
        fresh matches Some(o) ==> final(cache).status@ == spec_init_step(
            old(cache).status@,
            spec_outcome_view(o),
        ),
        fresh is None ==> final(cache).status@ == old(cache).status@,
        (r is Ok) <==> (final(cache).status@ is Success),
        r matches Err(e) ==> (final(cache).status@ matches InitStatusView::Failure(m)
            && e.message@ == "nix_libstore_init error: "@ + m),
{
    match fresh {
        Some(outcome) => match outcome {
            Ok(u) => {
                cache.status = InitStatus::Success;
                Ok(())
            },
            Err(e) => {
                cache.status = InitStatus::Failure(e.message);
                match &cache.status {
                    InitStatus::Failure(m) => {
                        let mut msg = String::from_str("nix_libstore_init error: ");
                        msg.append(m.as_str());
                        Err(InitError { message: msg })
                    },
                    _ => {
                        proof {
                            assert(false);
                        }
                        Ok(())
                    },
                }
            },
        },
        None => match &cache.status {
            InitStatus::Success => Ok(()),
            InitStatus::Failure(m) => {
                let mut msg = String::from_str("nix_libstore_init error: ");
                msg.append(m.as_str());
                Err(InitError { message: msg })
            },
            InitStatus::Uninitialized => {
                proof {
                    assert(false);
                }
                Ok(())
            },
        },
    }
}

/// The cache statuses after each call of a sequence of initialization
/// calls, where `outcomes[i]` is what the underlying routine would report
/// if call `i` ran it.
pub open spec fn spec_init_trace(
    s0: InitStatusView,
    outcomes: Seq<Result<(), Seq<char>>>,
) -> Seq<InitStatusView>
    decreases outcomes.len(),
{
    if outcomes.len() == 0 {
        seq![]
    } else {
        let s1 = spec_init_step(s0, outcomes[0]);
        seq![s1] + spec_init_trace(s1, outcomes.drop_first())
    }
}

/// How many calls of a sequence of initialization calls run the underlying
/// routine.
pub open spec fn spec_init_run_count(
    s0: InitStatusView,
    outcomes: Seq<Result<(), Seq<char>>>,
) -> nat
    decreases outcomes.len(),
{
    if outcomes.len() == 0 {
        0
    } else {
        (if spec_init_runs(s0) {
            1nat
        } else {
            0nat
        }) + spec_init_run_count(spec_init_step(s0, outcomes[0]), outcomes.drop_first())
    }
}

/// A trace records one status per call.
pub proof fn lemma_init_trace_len(s0: InitStatusView, outcomes: Seq<Result<(), Seq<char>>>)
    ensures
        spec_init_trace(s0, outcomes).len() == outcomes.len(),
    decreases outcomes.len(),
{
    if outcomes.len() > 0 {
        lemma_init_trace_len(spec_init_step(s0, outcomes[0]), outcomes.drop_first());
    }
}

/// A resolved cache stays resolved: later calls never run the underlying
/// routine and never change the cached status.
pub proof fn lemma_init_resolution_permanent(
    s: InitStatusView,
    outcomes: Seq<Result<(), Seq<char>>>,
)
    requires
        !(s is Uninitialized),
    ensures
        spec_init_run_count(s, outcomes) == 0,
        forall|i: int|
            0 <= i < outcomes.len() ==> #[trigger] spec_init_trace(s, outcomes)[i] == s,
    decreases outcomes.len(),
{
    if outcomes.len() > 0 {
        assert(spec_init_step(s, outcomes[0]) == s);
        lemma_init_resolution_permanent(s, outcomes.drop_first());
        let trace = spec_init_trace(s, outcomes);
        let rest = spec_init_trace(s, outcomes.drop_first());
        lemma_init_trace_len(s, outcomes);
        lemma_init_trace_len(s, outcomes.drop_first());
        assert(trace == seq![s] + rest);
        assert forall|i: int| 0 <= i < outcomes.len() implies #[trigger] trace[i] == s by {
            if i == 0 {
            } else {
                assert(trace[i] == rest[i - 1]);
            }
        }
    }
}

/// Concurrent or sequential first use is exactly-once: over any sequence of
/// initialization calls starting from an unresolved cache — the order in
/// which a process-global cell serializes racing threads — exactly one call
/// runs the underlying routine, and every call leaves the cache at the
/// outcome that the one run reported, so all callers observe that same
/// outcome.
pub proof fn lemma_init_runs_exactly_once(
    s0: InitStatusView,
    outcomes: Seq<Result<(), Seq<char>>>,
)
    requires
        s0 is Uninitialized,
        outcomes.len() >= 1,
    ensures
        spec_init_run_count(s0, outcomes) == 1,
        forall|i: int|
            0 <= i < outcomes.len() ==> #[trigger] spec_init_trace(s0, outcomes)[i]
                == spec_resolved(outcomes[0]),
{
    let s1 = spec_init_step(s0, outcomes[0]);
    assert(s1 == spec_resolved(outcomes[0]));
    assert(!(s1 is Uninitialized));
    lemma_init_resolution_permanent(s1, outcomes.drop_first());
    let trace = spec_init_trace(s0, outcomes);
    let rest = spec_init_trace(s1, outcomes.drop_first());
    lemma_init_trace_len(s0, outcomes);
    lemma_init_trace_len(s1, outcomes.drop_first());
    assert(trace == seq![s1] + rest);
    assert forall|i: int| 0 <= i < outcomes.len() implies #[trigger] trace[i] == s1 by {
        if i == 0 {
        } else {
            assert(trace[i] == rest[i - 1]);
        }
    }
}

} // verus!

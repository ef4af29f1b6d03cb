//! Per-thread registration with the engine's collector.
//!
//! The collector scans registered threads' stacks during collection, so any
//! thread that holds or forces collector-managed values must be registered
//! for the entire span in which it does so. Double-registration and
//! mismatched unregistration corrupt collector bookkeeping, so only the
//! call site that performed a registration may undo it.
//!
//! The collector's own calls (querying the registration flag, capturing the
//! stack base, registering, unregistering) happen in the embedding program;
//! this module holds the protocol: one [`ThreadGcState`] per thread mirrors
//! the collector's registration flag for that thread, and
//! [`gc_registering_current_thread`] brackets a caller-supplied closure so
//! that the flag is restored on every exit path.

use vstd::prelude::*;
use vstd::string::StringExecFns;

use crate::errors::{EngineError, InitError, RegistrationError};
use crate::init::{init, spec_init_step, spec_outcome_view, InitCache};

verus! {

/// The collector's registration state for one thread, as this layer
/// mirrors it: `registered` holds exactly when the collector currently has
/// the thread registered.
pub struct ThreadGcState {
    pub registered: bool,
}

impl ThreadGcState {
    /// The state of a thread the collector has never seen.
    pub fn new() -> (r: ThreadGcState)
        ensures
            !r.registered,
    {
        ThreadGcState { registered: false }
    }
}

/// Entering a registered-thread bracket: the thread ends up registered, and
/// the bracket owns the registration exactly when the thread was not
/// registered before. Returns the state during the bracket and the
/// ownership mark.
pub open spec fn spec_bracket_enter(registered: bool) -> (bool, bool) {
    (true, !registered)
}

/// Leaving a registered-thread bracket: only the bracket that performed the
/// registration unregisters. Returns the state after the bracket.
pub open spec fn spec_bracket_exit(registered: bool, registered_here: bool) -> bool {
    if registered_here {
        false
    } else {
        registered
    }
}

/// Nested registered-thread brackets are reentrant: the inner bracket on an
/// already-registered thread registers nothing — so the thread is never
/// double-registered — and its completion leaves the thread registered for
/// the outer bracket; the outer bracket restores the state it found.
pub proof fn lemma_registration_reentrant(registered0: bool)
    ensures
        ({
            let (s1, outer_here) = spec_bracket_enter(registered0);
            let (s2, inner_here) = spec_bracket_enter(s1);
            let s3 = spec_bracket_exit(s2, inner_here);
            let s4 = spec_bracket_exit(s3, outer_here);
            &&& !inner_here
            &&& s2 == s1
            &&& s3
            &&& s4 == registered0
        }),
{
}

/// Registers the calling thread with the collector if it is not registered
/// yet. `stack_base` is what the collector's stack-base query reported:
/// `Ok` when a base was captured (and the registration call was then made
/// with it), or the collector's failure code. A thread that is already
/// registered is left untouched — never registered twice.
pub fn gc_register_my_thread(ts: &mut ThreadGcState, stack_base: Result<(), i32>) -> (r: Result<
    (),
    RegistrationError,
>)
    ensures
        old(ts).registered ==> r is Ok && final(ts).registered,
        !old(ts).registered && stack_base is Ok ==> r is Ok && final(ts).registered,
        !old(ts).registered && stack_base is Err ==> (r matches Err(e) && e.code
            == stack_base->Err_0 && !final(ts).registered),
{
    if ts.registered {
        return Ok(());
    }
    match stack_base {
        Ok(u) => {
            ts.registered = true;
            Ok(())
        },
        Err(code) => Err(RegistrationError { code }),
    }
}

/// Why a registered-thread call could not run its closure.
#[derive(Debug)]
pub enum WithThreadError {
    /// Process-wide initialization failed (cached outcome re-surfaced).
    Init(InitError),
    /// The collector's stack-base query failed; it is not safe to proceed
    /// with unregistered collector access.
    Registration(RegistrationError),
}

impl WithThreadError {
    /// The human-readable message of this failure.
    pub fn message(&self) -> (m: String)
        ensures
            match self {
                WithThreadError::Init(e) => m@ == e.message@,
                WithThreadError::Registration(e) => m@ == crate::errors::spec_registration_message(
                    e.code as int,
                ),
            },
    {
        match self {
            WithThreadError::Init(e) => {
                let mut s = String::new();
                s.append(e.message());
                s
            },
            WithThreadError::Registration(e) => e.message(),
        }
    }
}

/// Runs `f` while the calling thread is registered with the collector.
///
/// Process-wide initialization is observed first (`cache` and `fresh` as in
/// [`init`]). If the thread is already registered, `f` simply runs — this
/// call site does not own the registration and must not undo it. Otherwise
/// the thread is registered for the duration of `f` (using the stack base
/// whose capture `stack_base` reports) and unregistered afterwards, so the
/// thread's registration flag always leaves this call as it entered it.
pub fn gc_registering_current_thread<F, R>(
    cache: &mut InitCache,
    fresh: Option<Result<(), EngineError>>,
    ts: &mut ThreadGcState,
    stack_base: Result<(), i32>,
    f: F,
) -> (r: Result<R, WithThreadError>) where F: FnOnce() -> R
    requires
        (old(cache).status@ is Uninitialized) <==> (fresh is Some),
        call_requires(f, ()),
    ensures
        final(ts).registered == old(ts).registered,
        !(final(cache).status@ is Uninitialized),
        fresh matches Some(o) ==> final(cache).status@ == spec_init_step(
            old(cache).status@,
            spec_outcome_view(o),
        ),
        fresh is None ==> final(cache).status@ == old(cache).status@,
        !(final(cache).status@ is Success) ==> (r matches Err(
            WithThreadError::Init(e),
        ) && final(cache).status@ matches crate::init::InitStatusView::Failure(m) && e.message@
            == "nix_libstore_init error: "@ + m),
        final(cache).status@ is Success && old(ts).registered ==> (r matches Ok(v)
            && call_ensures(f, (), v)),
        final(cache).status@ is Success && !old(ts).registered && stack_base is Ok ==> (r matches
            Ok(v) && call_ensures(f, (), v)),
        final(cache).status@ is Success && !old(ts).registered && stack_base is Err ==> (r matches
            Err(WithThreadError::Registration(e)) && e.code == stack_base->Err_0),
{
    match init(cache, fresh) {
        Ok(u) => {},
        Err(e) => {
            return Err(WithThreadError::Init(e));
        },
    }
    if ts.registered {
        return Ok(f());
    }
    match gc_register_my_thread(ts, stack_base) {
        Ok(u) => {},
        Err(e) => {
            return Err(WithThreadError::Registration(e));
        },
    }
    let v = f();
    ts.registered = false;
    Ok(v)
}

} // verus!

//! The evaluation context and the handles to the lazily-computed values it
//! produces.
//!
//! An [`EvalState`] owns one engine evaluation context bound to a storage
//! backend, and mirrors what the engine has established about each value
//! slot this layer handed out: still a thunk, or forced to a concrete kind.
//! The engine's own calls (context creation, evaluation, forcing, kind and
//! string queries) happen in the embedding program, which feeds each call's
//! outcome into the corresponding method here; the methods hold the
//! decisions — error-channel discipline, kind dispatch, NUL and UTF-8
//! validation, lifecycle — and are verified for every outcome the engine
//! can report.

use vstd::prelude::*;
use vstd::string::StringExecFns;
use vstd::utf8::{decode_utf8, encode_utf8, valid_utf8};

use crate::channel::ErrorChannel;
use crate::encoding::{decode_engine_string, has_nul_byte, spec_has_nul};
use crate::errors::{EngineError, ExtractionError, InitError};
use crate::kind::ValueKind;

verus! {

/// The storage backend handle the evaluation context is bound to, opaque to
/// this layer: the embedding program maps the identifier to the real
/// backend. The backend is shared, not exclusively owned — it may outlive
/// the context or be used elsewhere.
#[derive(Clone, Copy, Debug, PartialEq, Eq, Structural)]
pub struct Store {
    pub handle: u64,
}

/// A shared handle to a (possibly unevaluated) result living in the
/// engine's collector-managed heap. Cloning shares the same underlying heap
/// reference; the engine's collector decides reclamation. A `Value` is only
/// valid with the `EvalState` that produced it.
#[derive(Clone, Copy, Debug, PartialEq, Eq, Structural)]
pub struct Value {
    pub slot: usize,
}

/// What the engine has established about one value slot.
#[derive(Clone, Copy, Debug, PartialEq, Eq, Structural)]
pub enum SlotState {
    /// Still an unevaluated thunk.
    Thunk,
    /// Forced to a concrete value of this kind.
    Forced(ValueKind),
}

/// Why an evaluation context could not be constructed.
#[derive(Debug)]
pub enum NewError {
    /// Process-wide initialization failed (cached outcome re-surfaced).
    Init(InitError),
    /// The engine's context constructor failed.
    Engine(EngineError),
}

impl NewError {
    /// The human-readable message of this failure.
    pub fn message(&self) -> (m: String)
        ensures
            match self {
                NewError::Init(e) => m@ == e.message@,
                NewError::Engine(e) => m@ == e.message@,
            },
    {
        match self {
            NewError::Init(e) => {
                let mut s = String::new();
                s.append(e.message());
                s
            },
            NewError::Engine(e) => {
                let mut s = String::new();
                s.append(e.message());
                s
            },
        }
    }
}

/// The slot state after the engine's forcing call reports `outcome`.
/// Forcing is idempotent: a slot that is already forced stays exactly as it
/// is; a thunk becomes forced when the call succeeds and stays a thunk when
/// the call fails.
pub open spec fn spec_force_slot(s: SlotState, outcome: Result<ValueKind, EngineError>) -> SlotState {
    match s {
        SlotState::Forced(k) => SlotState::Forced(k),
        SlotState::Thunk => match outcome {
            Ok(k) => SlotState::Forced(k),
            Err(e) => SlotState::Thunk,
        },
    }
}

/// Whether a forcing call on a slot in state `s` succeeds when the engine
/// reports `outcome`: forcing an already-forced value introduces no error.
pub open spec fn spec_force_ok(s: SlotState, outcome: Result<ValueKind, EngineError>) -> bool {
    s is Forced || outcome is Ok
}

/// The concrete kind a kind query resolves for a slot in state `s`, where
/// `outcome` is what the engine's forcing call reports if the slot still
/// has to be forced; `None` when that forcing fails.
pub open spec fn spec_resolved_kind(
    s: SlotState,
    outcome: Result<ValueKind, EngineError>,
) -> Option<ValueKind> {
    match spec_force_slot(s, outcome) {
        SlotState::Forced(k) => Some(k),
        SlotState::Thunk => None,
    }
}

/// Forcing a value twice is idempotent: after a successful force, a second
/// force — whatever the engine reports for it — succeeds, changes nothing,
/// and a kind query resolves the same kind both times.
pub proof fn lemma_force_idempotent(
    s: SlotState,
    o1: Result<ValueKind, EngineError>,
    o2: Result<ValueKind, EngineError>,
)
    requires
        spec_force_ok(s, o1),
    ensures
        ({
            let s1 = spec_force_slot(s, o1);
            let s2 = spec_force_slot(s1, o2);
            &&& spec_force_ok(s1, o2)
            &&& s2 == s1
            &&& spec_resolved_kind(s1, o2) == spec_resolved_kind(s, o1)
        }),
{
}

/// One engine evaluation context bound to a storage backend, with this
/// layer's mirror of the value slots it handed out.
pub struct EvalState {
    /// Whether the context is still alive: set once at construction,
    /// cleared exactly once by [`EvalState::close`].
    pub live: bool,
    /// What the engine has established about each handed-out value slot.
    pub slots: Vec<SlotState>,
    /// The backend the context was constructed with.
    pub store: Store,
    /// The context's error channel.
    pub channel: ErrorChannel,
}

impl EvalState {
    /// The context is between boundary calls: its error channel holds no
    /// unchecked report.
    pub open spec fn wf(&self) -> bool {
        self.channel.pending is None
    }

    /// Constructs an evaluation context bound to `store`.
    ///
    /// `init_outcome` is what process-wide initialization observed — a
    /// cached failure is re-surfaced, never retried — and `created` is
    /// whether the engine's context constructor returned a usable (non-null)
    /// handle.
    pub fn new(store: Store, init_outcome: Result<(), InitError>, created: bool) -> (r: Result<
        EvalState,
        NewError,
    >)
        ensures
            init_outcome matches Err(e) ==> (r matches Err(NewError::Init(e2)) && e2.message@
                == e.message@),
            init_outcome is Ok && !created ==> (r matches Err(NewError::Engine(e)) && e.message@
                == "nix_state_create returned a null pointer"@),
            init_outcome is Ok && created ==> (r matches Ok(es) && es.live && es.slots@.len() == 0
                && es.store == store && es.wf()),
    {
        match init_outcome {
            Err(e) => Err(NewError::Init(e)),
            Ok(u) => {
                if !created {
                    Err(
                        NewError::Engine(
                            EngineError {
                                message: String::from_str("nix_state_create returned a null pointer"),
                            },
                        ),
                    )
                } else {
                    Ok(
                        EvalState {
                            live: true,
                            slots: Vec::new(),
                            store,
                            channel: ErrorChannel::new(),
                        },
                    )
                }
            },
        }
    }

    /// The storage backend this context is bound to.
    pub fn store(&self) -> (s: &Store)
        ensures
            *s == self.store,
    {
        &self.store
    }

    /// Evaluates expression text to a new, still-unforced value.
    ///
    /// `path` is the label diagnostics report as the originating file.
    /// Expression and label must cross the C-style boundary, so text with an
    /// embedded NUL byte is rejected before any engine work. `report` is
    /// what the engine's evaluation call left in the error channel. On
    /// success the new value is a thunk: evaluation from a string is not
    /// forced eagerly.
    pub fn eval_from_string(
        &mut self,
        expr: String,
        path: String,
        report: Option<EngineError>,
    ) -> (r: Result<Value, EngineError>)
        requires
            old(self).wf(),
            old(self).live,
        ensures
            final(self).wf(),
            final(self).live,
            final(self).store == old(self).store,
            spec_has_nul(expr@) ==> (r matches Err(e) && e.message@
                == "eval_from_string: expr contains null byte"@ && final(self).slots@ == old(
                self,
            ).slots@),
            !spec_has_nul(expr@) && spec_has_nul(path@) ==> (r matches Err(e) && e.message@
                == "eval_from_string: path contains null byte"@ && final(self).slots@ == old(
                self,
            ).slots@),
            report matches Some(e) ==> (!spec_has_nul(expr@) && !spec_has_nul(path@) ==> (r matches
                Err(e2) && e2.message@ == e.message@ && final(self).slots@ == old(self).slots@)),
            !spec_has_nul(expr@) && !spec_has_nul(path@) && report is None ==> (r matches Ok(v)
                && v.slot == old(self).slots@.len() && final(self).slots@ == old(
                self,
            ).slots@.push(SlotState::Thunk)),
    {
        if has_nul_byte(expr.as_str()) {
            return Err(
                EngineError { message: String::from_str("eval_from_string: expr contains null byte") },
            );
        }
        if has_nul_byte(path.as_str()) {
            return Err(
                EngineError { message: String::from_str("eval_from_string: path contains null byte") },
            );
        }
        let slot = self.slots.len();
        self.channel.record(report);
        match self.channel.check() {
            Err(e) => Err(e),
            Ok(u) => {
                self.slots.push(SlotState::Thunk);
                Ok(Value { slot })
            },
        }
    }

    /// Whether a value is still an unevaluated thunk.
    pub fn value_is_thunk(&self, v: &Value) -> (b: bool)
        requires
            self.live,
            v.slot < self.slots@.len(),
        ensures
            b == (self.slots@[v.slot as int] is Thunk),
    {
        match self.slots[v.slot] {
            SlotState::Thunk => true,
            SlotState::Forced(k) => false,
        }
    }

    /// Tries to turn a value into one that is not a thunk.
    ///
    /// `outcome` is what the engine's forcing call reported: the concrete
    /// kind now in the slot, or the failure it left in the error channel.
    /// On success the slot is mutated in place by the engine; the handle is
    /// unchanged. Forcing an already-forced value is a no-op that cannot
    /// introduce an error.
    pub fn force(&mut self, v: &Value, outcome: Result<ValueKind, EngineError>) -> (r: Result<
        (),
        EngineError,
    >)
        requires
            old(self).wf(),
            old(self).live,
            v.slot < old(self).slots@.len(),
        ensures
            final(self).wf(),
            final(self).live,
            final(self).store == old(self).store,
            final(self).slots@ == old(self).slots@.update(
                v.slot as int,
                spec_force_slot(old(self).slots@[v.slot as int], outcome),
            ),
            r is Ok <==> spec_force_ok(old(self).slots@[v.slot as int], outcome),
            r matches Err(e) ==> (outcome matches Err(e0) && e.message@ == e0.message@),
    {
        let slot_state = self.slots[v.slot];
        proof {
            assert(old(self).slots@.update(v.slot as int, old(self).slots@[v.slot as int])
                =~= old(self).slots@);
        }
        match slot_state {
            SlotState::Forced(k) => Ok(()),
            SlotState::Thunk => {
                match outcome {
                    Ok(k) => {
                        self.slots[v.slot] = SlotState::Forced(k);
                        Ok(())
                    },
                    Err(e) => {
                        self.channel.record(Some(e));
                        match self.channel.check() {
                            Err(e2) => Err(e2),
                            Ok(u) => {
                                proof {
                                    assert(false);
                                }
                                Ok(())
                            },
                        }
                    },
                }
            },
        }
    }

    /// The concrete kind of a value, forcing it first if it is still a
    /// thunk — callers never observe a thunk from this query. `outcome` is
    /// what the engine's forcing call reports if one is needed; a value
    /// that is already forced keeps its kind without further engine work.
    pub fn value_type(&mut self, v: &Value, outcome: Result<ValueKind, EngineError>) -> (r: Result<
        ValueKind,
        EngineError,
    >)
        requires
            old(self).wf(),
            old(self).live,
            v.slot < old(self).slots@.len(),
        ensures
            final(self).wf(),
            final(self).live,
            final(self).store == old(self).store,
            final(self).slots@ == old(self).slots@.update(
                v.slot as int,
                spec_force_slot(old(self).slots@[v.slot as int], outcome),
            ),
            match spec_resolved_kind(old(self).slots@[v.slot as int], outcome) {
                Some(k) => r matches Ok(rk) && rk == k,
                None => r matches Err(e) && (outcome matches Err(e0) && e.message@
                    == e0.message@),
            },
    {
        match self.force(v, outcome) {
            Err(e) => Err(e),
            Ok(u) => match self.slots[v.slot] {
                SlotState::Forced(k) => Ok(k),
                SlotState::Thunk => {
                    proof {
                        assert(false);
                    }
                    Err(EngineError { message: String::new() })
                },
            },
        }
    }

    /// Extracts the contents of a string value.
    ///
    /// The value's kind is determined first (forcing it if needed, with
    /// `outcome` as in [`EvalState::value_type`]); a value of any other
    /// kind is rejected as a wrong-kind error naming both kinds. For a
    /// string, `fetched` is what the engine's string query handed over: the
    /// raw bytes, or the failure it left in the error channel. The bytes
    /// are validated as UTF-8 and returned byte-for-byte; invalid contents
    /// are rejected, never returned garbled.
    pub fn require_string(
        &mut self,
        v: &Value,
        outcome: Result<ValueKind, EngineError>,
        fetched: Result<Vec<u8>, EngineError>,
    ) -> (r: Result<String, ExtractionError>)
        requires
            old(self).wf(),
            old(self).live,
            v.slot < old(self).slots@.len(),
        ensures
            final(self).wf(),
            final(self).live,
            final(self).store == old(self).store,
            final(self).slots@ == old(self).slots@.update(
                v.slot as int,
                spec_force_slot(old(self).slots@[v.slot as int], outcome),
            ),
            spec_resolved_kind(old(self).slots@[v.slot as int], outcome) is None ==> (r matches
                Err(ExtractionError::Engine(e)) && (outcome matches Err(e0) && e.message@
                == e0.message@)),
            spec_resolved_kind(old(self).slots@[v.slot as int], outcome) matches Some(k) ==> (k
                != ValueKind::String ==> (r matches Err(
                ExtractionError::WrongKind { expected, actual },
            ) && expected == ValueKind::String && actual == k)),
            spec_resolved_kind(old(self).slots@[v.slot as int], outcome) == Some(ValueKind::String)
                ==> match fetched {
                Err(e) => r matches Err(ExtractionError::Engine(e2)) && e2.message@ == e.message@,
                Ok(bytes) => {
                    if valid_utf8(bytes@) {
                        r matches Ok(s) && s@ == decode_utf8(bytes@) && encode_utf8(s@) == bytes@
                    } else {
                        r matches Err(e) && e is InvalidEncoding
                    }
                },
            },
    {
        let t = match self.value_type(v, outcome) {
            Err(e) => {
                return Err(ExtractionError::Engine(e));
            },
            Ok(t) => t,
        };
        if t != ValueKind::String {
            return Err(ExtractionError::WrongKind { expected: ValueKind::String, actual: t });
        }
        match fetched {
            Err(e) => {
                self.channel.record(Some(e));
                match self.channel.check() {
                    Err(e2) => Err(ExtractionError::Engine(e2)),
                    Ok(u) => {
                        proof {
                            assert(false);
                        }
                        Err(ExtractionError::InvalidEncoding)
                    },
                }
            },
            Ok(bytes) => decode_engine_string(bytes),
        }
    }

    /// Releases the evaluation context.
    ///
    /// The engine's context-teardown call is issued for this context
    /// exactly once, here: closing requires the context to be live and
    /// leaves it dead, and every other operation requires it live, so no
    /// operation — including a second teardown — can follow.
    pub fn close(&mut self)
        requires
            old(self).live,
        ensures
            !final(self).live,
            final(self).slots@ == old(self).slots@,
            final(self).store == old(self).store,
            final(self).channel.pending == old(self).channel.pending,
    {
        self.live = false;
    }
}

} // verus!

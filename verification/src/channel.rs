//! The error channel: a scratch slot the engine writes structured failure
//! information into during a boundary call, checked immediately after the
//! call and converted to a typed error before any further logic proceeds.
//!
//! The channel holds at most one pending report. Recording the outcome of a
//! boundary call requires the channel to have been checked since the last
//! call, so an unchecked report can never be lost silently; checking
//! consumes the report.

use vstd::prelude::*;

use crate::errors::EngineError;

verus! {

/// The outcome slot for boundary calls.
pub struct ErrorChannel {
    /// The report of the most recent boundary call, not yet checked:
    /// `None` when the call succeeded (or the channel was never written).
    pub pending: Option<EngineError>,
}

impl ErrorChannel {
    /// A fresh, empty channel.
    pub fn new() -> (r: ErrorChannel)
        ensures
            r.pending is None,
    {
        ErrorChannel { pending: None }
    }

    /// Records what a boundary call left in the channel: `None` on success,
    /// the engine's structured failure otherwise.
    ///
    /// The channel must have been checked since the last recorded call;
    /// recording over an unchecked report would lose that error permanently.
    pub fn record(&mut self, report: Option<EngineError>)
        requires
            old(self).pending is None,
        ensures
            final(self).pending == report,
    {
        self.pending = report;
    }

    /// Inspects and consumes the pending report: `Ok` if the last call left
    /// the channel empty, its failure otherwise. A second check without an
    /// intervening call observes no error.
    pub fn check(&mut self) -> (r: Result<(), EngineError>)
        ensures
            final(self).pending is None,
            match old(self).pending {
                None => r is Ok,
                Some(e) => r matches Err(out) && out.message@ == e.message@,
            },
    {
        match self.pending.take() {
            None => Ok(()),
            Some(e) => Err(e),
        }
    }
}

} // verus!

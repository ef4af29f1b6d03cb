//! A safe, ownership-correct access layer over an external lazy-evaluation
//! engine that lives behind a C-style interface and manages its own
//! garbage-collected heap.
//!
//! The engine itself (parsing, lazy evaluation, the storage backend) is an
//! external collaborator reached only through a fixed set of boundary calls,
//! which the embedding program performs. This crate holds the logic that must
//! be correct for any caller to use such an engine safely:
//!
//! - process-wide exactly-once initialization, memoized across success and
//!   failure ([`init`]);
//! - per-thread registration with the engine's collector, scoped so that a
//!   thread is never double-registered nor unregistered by a call site that
//!   did not register it ([`gc`]);
//! - translation of the engine's out-of-band error reporting into owned,
//!   typed error values ([`channel`], [`errors`]);
//! - the lifecycle of an evaluation context and of the lazily-computed value
//!   handles it produces, including forcing, kind introspection and typed
//!   string extraction with UTF-8 validation ([`eval`], [`encoding`]).
//!
//! Every boundary call's outcome enters this layer as a plain value (an error
//! report, a kind tag, raw bytes), so the decision logic here is verified for
//! every outcome the engine can produce.

pub mod channel;
pub mod encoding;
pub mod errors;
pub mod eval;
pub mod gc;
pub mod init;
pub mod kind;

//! A single-process node for a line-delimited JSON request/reply protocol.
//!
//! The node keeps a small piece of mutable state (its identity, a monotonic
//! message counter, a log of received broadcast values and a stored topology)
//! and answers `init`, `echo`, `generate`, `broadcast`, `read` and `topology`
//! requests with exactly one reply each.  This crate holds the verified
//! message-dispatch core: the state machine, the handlers and their contracts.
//! Transport (stdin/stdout), JSON encoding and the task scheduler live in the
//! unverified shell around it.

pub mod dispatch;
pub mod ids;
pub mod laws;
pub mod maelstrom;

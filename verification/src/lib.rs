//! Readiness bridge for non-blocking network I/O.
//!
//! The reactor owns a registry of per-socket bookkeeping entries, keyed by
//! token. Each entry caches readiness and holds at most one pending
//! resumption per direction. Operations follow the try / clear-and-recheck
//! protocol: attempt the non-blocking call, and on would-block clear the
//! cached readiness and re-arm before suspending, so that an event arriving
//! in the gap is never lost.

pub mod reactor;
pub mod resource;
pub mod wakeup;

//! Single-slot remote task-execution server core.
//!
//! A worker exposes one unit of compute capacity. A client must acquire an
//! exclusive lease before submitting work, submits exactly one task against
//! that lease, and later retrieves the result. Abandoned leases and abandoned
//! results are reclaimed by timeouts, so a crashed client cannot starve the
//! slot. This crate holds the lease/admission state machine and the task
//! runner's decision logic; the network transport, the proof computation and
//! the process plumbing live outside it.

pub mod error;
pub mod laws;
pub mod server;
pub mod status;
pub mod tasks;
pub mod utils;

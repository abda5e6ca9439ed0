//! Background-task execution and region-merge coordination for a replicated,
//! partitioned key-value store.
//!
//! The crate models, and verifies, the two coupled pieces of that substrate:
//! a named single-consumer background worker with a cancellable task queue and
//! a back-pressure counter, and the region-merge handshake — a sequence of
//! administrative commands addressed to a remote leader peer that must be
//! discovered asynchronously, with failure-driven leader rotation.
//!
//! Threads, channels and sockets cannot be reasoned about directly, so the
//! library states every decision the system makes as a function from state and
//! event to next state and action. The events an attempt loop consumes (a
//! connection refused, a response with a correlation id) are handed in as
//! plain values; the unverified shell that owns the sockets and threads drives
//! these functions and performs the actions they return.

pub mod merge;
pub mod region;
pub mod rpc;
pub mod worker;

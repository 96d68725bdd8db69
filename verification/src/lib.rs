//! An in-process actor runtime core, stated and verified as a state-level
//! model: independent units of mutable state ("actors") each process messages
//! one at a time from a pair of queues, and are reached through
//! reference-counted addresses.
//!
//! The modules mirror the runtime's components:
//! - [`context`]: the lifecycle state machine (`Starting -> Started ->
//!   Stopping -> Stopped`) and the per-actor [`context::Context`] with its
//!   stop protocol.
//! - [`address`]: the dual-queue mailbox with strong-address reference
//!   counting, the send/notify operations, and the repeating-notification
//!   policy.
//! - [`actor`]: the lifecycle coordinator's loop decisions and the laws that
//!   tie the stop protocol, abandonment, and queue draining together.
//! - [`handler`]: request/response slots (one-shot, fulfilled at most once)
//!   and result unpacking.
//! - [`pool`]: a fixed-size rotating pool of checked-out/returned addresses.
//!
//! The asynchronous host (task spawning, timers, real channels) lives outside
//! this library and drives it: every decision the coordinator takes is a
//! verified function from state and observed event to next state and action.

pub mod actor;
pub mod address;
pub mod context;
pub mod handler;
pub mod pool;

//! Scoped cancellation for background tasks.
//!
//! A task is launched together with a [`handle::Lifeline`]. Releasing the
//! handle tells the task to stop; the task stops at its next scheduling
//! checkpoint.
//!
//! - [`state`]: the latch and wakeup slot that a task and its handle share.
//! - [`protocol`]: the steps of one checkpoint, as a rule on plain values.
//! - [`task`]: the wrapper that runs a unit of work by that rule.
//! - [`handle`]: the handle whose release requests cancellation.
//! - [`spawn`]: naming and launching.
//! - [`model`] and [`laws`]: the protocol under every interleaving.
//! - [`outside`]: what is taken on trust from std, `futures` and `tokio`.

pub mod handle;
pub mod laws;
pub mod model;
pub mod outside;
pub mod protocol;
pub mod spawn;
pub mod state;
pub mod task;

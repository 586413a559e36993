//! The cancellation state that a task and its handle share.

use futures::task::AtomicWaker;
use std::sync::atomic::AtomicBool;
use std::sync::atomic::Ordering;
use std::task::Waker;
use vstd::prelude::*;

verus! {

/// A one-shot latch, "cancellation was requested", and a slot for the wakeup
/// handle of the task that waits on it.
///
/// Both fields change behind a shared reference, from any thread. Verus sees
/// neither value: no contract here speaks of what a field holds.
#[derive(Debug)]
pub struct LifelineInner {
    waker: AtomicWaker,
    cancel: AtomicBool,
}

impl LifelineInner {
    /// A state in which no cancellation was requested and no wakeup is
    /// registered.
    pub fn new() -> Self {
        LifelineInner { waker: AtomicWaker::new(), cancel: AtomicBool::new(false) }
    }

    /// Requests cancellation: sets the latch, then fires the registered
    /// wakeup, if there is one. The order matters: a task that the wakeup
    /// sends back to its checkpoint has to find the latch set. Firing runs
    /// the waker's own code; a panic in it passes through.
    pub fn abort(&self) {
        self.cancel.store(true, Ordering::Relaxed);
        self.waker.wake();
    }

    /// Whether cancellation was requested, as far as this thread can tell.
    pub fn is_cancel_requested(&self) -> bool {
        self.cancel.load(Ordering::Relaxed)
    }

    /// Stores `waker` as the wakeup to fire on cancellation, in place of any
    /// that was stored before. Where a request is firing at that moment,
    /// `waker` is fired at once instead.
    pub fn register_for_wakeup(&self, waker: &Waker) {
        self.waker.register(waker)
    }
}

} // verus!

//! The handle whose release cancels a task.

use std::sync::Arc;
use vstd::prelude::*;
use crate::state::LifelineInner;

verus! {

/// The owner's end of a task. Releasing it tells the task to stop.
///
/// The handle is given up by `release`, which takes it by value, so a handle
/// sends its request once. A handle that is let go without `release` sends
/// none, and its task runs on: the owner has to release it on every path on
/// which the task is to end.
#[derive(Debug)]
#[must_use]
pub struct Lifeline {
    inner: Arc<LifelineInner>,
}

impl Lifeline {
    /// The shared state that this handle cancels.
    pub closed spec fn state(&self) -> Arc<LifelineInner> {
        self.inner
    }

    /// A handle on `inner`.
    pub fn new(inner: Arc<LifelineInner>) -> (handle: Self)
        ensures
            handle.state() == inner,
    {
        Lifeline { inner }
    }

    /// Gives the handle up and requests cancellation of its task, before it
    /// returns. A panic of the waker that is fired passes through.
    pub fn release(self) {
        self.inner.abort();
    }
}

} // verus!

//! The wrapper that makes a unit of work answer to cancellation.

use std::future::Future;
use std::pin::Pin;
use std::sync::Arc;
use std::task::Context;
use std::task::Poll;
use vstd::prelude::*;
use crate::outside::pinned;
use crate::outside::poll_inner;
use crate::outside::poll_pending;
use crate::outside::poll_ready;
use crate::outside::unpinned;
use crate::protocol::Observation;
use crate::protocol::Outcome;
use crate::protocol::Step;
use crate::protocol::seen_in_turn;
use crate::protocol::step_reached;
use crate::state::LifelineInner;

verus! {

/// A unit of work together with the cancellation state it answers to.
///
/// As a future it completes when the work completes or when cancellation is
/// observed, whichever comes first. Beside the work it holds a record, for
/// proofs only, in which a checkpoint notes what it saw.
pub struct LifelineFuture<F: Future> {
    future: F,
    name: String,
    inner: Arc<LifelineInner>,
    seen: Ghost<Seq<Observation<F::Output>>>,
}

impl<F: Future> LifelineFuture<F> {
    /// The wrapped work.
    pub closed spec fn work(&self) -> F {
        self.future
    }

    /// The name given for diagnostics.
    pub closed spec fn label(&self) -> Seq<char> {
        self.name@
    }

    /// What the last checkpoint noted as seen, action by action. Empty
    /// before the first checkpoint.
    pub closed spec fn observed(&self) -> Seq<Observation<F::Output>> {
        self.seen@
    }

    /// The cancellation state that the wrapper consults.
    pub closed spec fn state(&self) -> Arc<LifelineInner> {
        self.inner
    }

    /// Wraps `future` so that it answers to `inner`.
    pub fn new(name: String, future: F, inner: Arc<LifelineInner>) -> (task: Self)
        ensures
            task.label() == name@,
            task.work() == future,
            task.state() == inner,
            task.observed() == Seq::<Observation<F::Output>>::empty(),
    {
        LifelineFuture { future, name, inner, seen: Ghost(Seq::empty()) }
    }

    /// The name given for diagnostics.
    pub fn name(&self) -> (name: &str)
        ensures
            name@ == self.label(),
    {
        self.name.as_str()
    }
}

/// The wrapper may be moved freely where the work in it may: the record of
/// what was seen holds no data.
impl<F: Future + Unpin> Unpin for LifelineFuture<F> {

}

impl<F: Future + Unpin> LifelineFuture<F> {
    /// Runs one scheduling checkpoint and says how it ended.
    ///
    /// The checkpoint starts at `Step::CheckLatch`, takes the action that each
    /// step names and moves on by `Step::after`, until a step reports. The
    /// latch and the inner work answer as they will, so the outcome is not
    /// fixed by the arguments.
    ///
    /// The wrapper keeps a record of what each action brought back. The
    /// record is this function's own account: it is written here, next to
    /// each call, and Verus does not see the calls themselves. The contract
    /// says that the account is a run of the checkpoint's rule and that the
    /// outcome is the report which the rule reaches on it
    /// (`lemma_runs_of_a_checkpoint` writes out the runs there are). It
    /// does not say that the latch was read or the wakeup registered: that
    /// the account is true to the calls is read off the body. What the
    /// contract does fix beyond the account: on a run of length one, which
    /// is the latch found set on entry, the work is as it was; the name and
    /// the cancellation state always are.
    pub fn checkpoint(&mut self, cx: &mut Context<'_>) -> (out: Outcome<F::Output>)
        ensures
            final(self).label() == old(self).label(),
            final(self).state() == old(self).state(),
            seen_in_turn(final(self).observed()),
            step_reached(final(self).observed()) == Step::Report(out),
            final(self).observed().len() == 1 ==> final(self).work() == old(self).work(),
    {
        let mut step: Step<F::Output> = Step::CheckLatch;
        self.seen = Ghost(Seq::empty());
        loop
            invariant
                self.label() == old(self).label(),
                self.state() == old(self).state(),
                seen_in_turn(self.observed()),
                step_reached(self.observed()) == step,
                self.observed().len() == 4 - step.remaining() || step is Report,
                self.observed().len() <= 1 ==> self.work() == old(self).work(),
            decreases step.remaining(),
        {
            let seen = match step {
                Step::Report(out) => {
                    return out;
                },
                Step::CheckLatch => Observation::Latch(self.inner.is_cancel_requested()),
                Step::AdvanceInner => Observation::Inner(
                    poll_inner(pinned(&mut self.future), cx),
                ),
                Step::RegisterWakeup => {
                    self.inner.register_for_wakeup(cx.waker());
                    Observation::Registered
                },
                Step::RecheckLatch => Observation::Latch(self.inner.is_cancel_requested()),
            };
            proof {
                let before = self.seen@;
                self.seen@ = before.push(seen);
                assert(self.seen@.drop_last() =~= before);
            }
            step = step.after(seen);
        }
    }
}

impl<F: Future + Unpin> Future for LifelineFuture<F> {
    type Output = ();

    /// One checkpoint, as an executor asks for it. The output of the work is
    /// dropped: ready means that the task is over, by completion or by
    /// cancellation.
    fn poll(self: Pin<&mut Self>, cx: &mut Context<'_>) -> Poll<()> {
        if unpinned(self).checkpoint(cx).completes() {
            poll_ready()
        } else {
            poll_pending()
        }
    }
}

} // verus!

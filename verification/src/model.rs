//! A model of a task, its handle and the executor, and what holds of every
//! way in which their moves can interleave.
//!
//! The latch and the wakeup slot change behind shared references, from any
//! thread, so no contract of the executable code can speak of them. The
//! model does. It takes each access to the shared state as one indivisible
//! move, puts all moves in a single order, and lets the moves of the task,
//! of the handle's release and of the inner work interleave freely.
//!
//! How the model meets the code:
//! - The task moves by `step_after`. That `Step::after` computes this rule
//!   is proved. That `LifelineFuture::checkpoint` takes the action each step
//!   names, and hands on what the action brought back, is read off its
//!   body: the contract of `checkpoint` speaks of a record that the function
//!   keeps itself.
//! - The release moves by `Raise`, then `Fire`. That `LifelineInner::abort`
//!   sets the latch first and fires second is read off its body and held by
//!   a test; no contract states it.
//!
//! What the model assumes and does not prove: that a reading of the latch
//! which comes after a registration sees every request whose wakeup found
//! the slot still empty (the barriers inside `AtomicWaker` give that to the
//! relaxed accesses of the latch), that a registration which meets a wakeup
//! under way counts as registered first and fired next, and that the
//! executor polls a task only when it was told to, and never once the task
//! is over.

use vstd::prelude::*;
use crate::protocol::Observation;
use crate::protocol::Outcome;
use crate::protocol::Step;
use crate::protocol::step_after;

verus! {

/// The shared cancellation state: the latch and the wakeup slot.
pub struct Shared {
    /// The latch.
    pub cancel_requested: bool,
    /// The registered wakeup, named by the checkpoint that registered it.
    pub wakeup: Option<nat>,
}

impl Shared {
    /// The state at launch: latch down, slot empty.
    pub open spec fn fresh() -> Shared {
        Shared { cancel_requested: false, wakeup: None }
    }

    /// The state after `waker` was registered: it takes the slot, whatever
    /// was there.
    pub open spec fn register(self, waker: nat) -> Shared {
        Shared { wakeup: Some(waker), ..self }
    }

    /// The state after the latch was set.
    pub open spec fn raise(self) -> Shared {
        Shared { cancel_requested: true, ..self }
    }

    /// The state after the slot was emptied to fire what it held.
    pub open spec fn fire(self) -> Shared {
        Shared { wakeup: None, ..self }
    }

    /// The state after a request for cancellation: latch set, slot emptied.
    pub open spec fn request_cancel(self) -> Shared {
        self.raise().fire()
    }

    /// The wakeup that a request for cancellation fires in this state.
    pub open spec fn fired_by_cancel(self) -> Option<nat> {
        self.wakeup
    }
}

/// What the task is doing.
pub enum Task<O> {
    /// Between checkpoints: not yet polled, or last seen `Pending`.
    Parked,
    /// Inside a checkpoint, at this step.
    Polling(Step<O>),
    /// Over: it reported this final outcome.
    Completed(Outcome<O>),
}

/// What has become of the handle.
pub enum Holder {
    /// The owner holds it.
    Held,
    /// It is being released: the latch is set, the wakeup not yet fired.
    Releasing,
    /// It is released: the latch is set and the wakeup was fired.
    Released,
}

/// One state of the whole: shared state, task, executor and handle.
pub struct World<O> {
    /// The shared cancellation state.
    pub shared: Shared,
    /// The task.
    pub task: Task<O>,
    /// Whether the executor has been told to poll the task and has not yet
    /// begun to.
    pub notified: bool,
    /// The handle.
    pub handle: Holder,
    /// How many checkpoints have begun.
    pub polls: nat,
}

/// One indivisible move.
pub enum Move<O> {
    /// The executor begins a checkpoint of the task it was told to poll.
    Begin,
    /// The checkpoint takes the action that is due and sees this.
    Act(Observation<O>),
    /// The checkpoint reports its outcome to the executor.
    Return,
    /// The handle's release sets the latch.
    Raise,
    /// The handle's release fires the registered wakeup.
    Fire,
    /// Cancellation is requested once more, after the latch was set.
    Again,
    /// The executor is told to poll the task, by the inner work or by anyone
    /// who holds an earlier wakeup handle.
    Notify,
}

impl<O> World<O> {
    /// The state right after launch: the task is submitted, so the executor
    /// has been told to poll it, and the owner holds the handle.
    pub open spec fn launched() -> World<O> {
        World {
            shared: Shared::fresh(),
            task: Task::Parked,
            notified: true,
            handle: Holder::Held,
            polls: 0,
        }
    }

    /// Whether `seen` is what the action due at `at` can bring back here:
    /// the latch reads as it is, the inner work answers as it will.
    pub open spec fn may_see(self, at: Step<O>, seen: Observation<O>) -> bool {
        match at {
            Step::CheckLatch | Step::RecheckLatch => seen == Observation::<O>::Latch(
                self.shared.cancel_requested,
            ),
            Step::AdvanceInner => seen is Inner,
            Step::RegisterWakeup => seen is Registered,
            Step::Report(_) => false,
        }
    }

    /// Whether `m` can happen here.
    pub open spec fn admits(self, m: Move<O>) -> bool {
        match m {
            Move::Begin => self.task is Parked && self.notified,
            Move::Act(seen) => self.task matches Task::Polling(at) && self.may_see(at, seen),
            Move::Return => self.task matches Task::Polling(Step::Report(_)),
            Move::Raise => self.handle is Held,
            Move::Fire => self.handle is Releasing,
            Move::Again => self.shared.cancel_requested,
            Move::Notify => true,
        }
    }

    /// The state after `m`.
    pub open spec fn after(self, m: Move<O>) -> World<O> {
        match m {
            Move::Begin => World {
                task: Task::Polling(Step::CheckLatch),
                notified: false,
                polls: self.polls + 1,
                ..self
            },
            Move::Act(seen) => match self.task {
                Task::Polling(at) => World {
                    task: Task::Polling(step_after(at, seen)),
                    shared: if at is RegisterWakeup {
                        self.shared.register(self.polls)
                    } else {
                        self.shared
                    },
                    ..self
                },
                _ => self,
            },
            Move::Return => match self.task {
                Task::Polling(Step::Report(out)) => World {
                    task: if out.is_final() {
                        Task::Completed(out)
                    } else {
                        Task::Parked
                    },
                    ..self
                },
                _ => self,
            },
            Move::Raise => World {
                shared: self.shared.raise(),
                handle: Holder::Releasing,
                ..self
            },
            Move::Fire => World {
                shared: self.shared.fire(),
                notified: self.notified || self.shared.fired_by_cancel() is Some,
                handle: Holder::Released,
                ..self
            },
            Move::Again => World {
                shared: self.shared.request_cancel(),
                notified: self.notified || self.shared.fired_by_cancel() is Some,
                ..self
            },
            Move::Notify => World { notified: true, ..self },
        }
    }

    /// Whether the moves of `run` can happen one after another from here.
    pub open spec fn admits_run(self, run: Seq<Move<O>>) -> bool
        decreases run.len(),
    {
        run.len() > 0 ==> self.admits(run[0]) && self.after(run[0]).admits_run(run.drop_first())
    }

    /// The state after the moves of `run`.
    pub open spec fn after_run(self, run: Seq<Move<O>>) -> World<O>
        decreases run.len(),
    {
        if run.len() == 0 {
            self
        } else {
            self.after(run[0]).after_run(run.drop_first())
        }
    }

    /// Whether the task will be polled again without further help: the
    /// executor has been told, or the slot holds a wakeup that the release
    /// of the handle has yet to fire.
    pub open spec fn armed(self) -> bool {
        self.notified || (self.shared.wakeup is Some && !(self.handle is Released))
    }

    /// What holds in every state that can be reached from launch.
    pub open spec fn consistent(self) -> bool {
        &&& self.shared.cancel_requested <==> !(self.handle is Held)
        &&& self.task is Parked ==> self.armed()
        &&& self.task matches Task::Polling(Step::Report(Outcome::Pending)) ==> self.armed()
        &&& self.task matches Task::Polling(Step::RecheckLatch) ==> self.armed()
            || self.handle is Released
        &&& self.task matches Task::Polling(Step::Report(Outcome::Cancelled))
            ==> self.shared.cancel_requested
        &&& self.task matches Task::Completed(out) ==> out.is_final() && (out is Cancelled
            ==> self.shared.cancel_requested)
    }
}

/// The state at launch is consistent.
pub proof fn lemma_launched_consistent<O>()
    ensures
        World::<O>::launched().consistent(),
{
}

/// Every move keeps a consistent state consistent.
pub proof fn lemma_move_keeps_consistent<O>(w: World<O>, m: Move<O>)
    requires
        w.consistent(),
        w.admits(m),
    ensures
        w.after(m).consistent(),
{
}

/// Every run from a consistent state ends in a consistent state.
pub proof fn lemma_run_keeps_consistent<O>(w: World<O>, run: Seq<Move<O>>)
    requires
        w.consistent(),
        w.admits_run(run),
    ensures
        w.after_run(run).consistent(),
    decreases run.len(),
{
    if run.len() > 0 {
        lemma_move_keeps_consistent(w, run[0]);
        lemma_run_keeps_consistent(w.after(run[0]), run.drop_first());
    }
}

} // verus!

//! The steps of one scheduling checkpoint.
//!
//! A checkpoint reads the latch, advances the inner work, registers for a
//! wakeup and reads the latch again. What it does next depends only on
//! where it stands and on what its last action brought back: that rule is
//! `step_after`, and the function `Step::after` computes it.

use vstd::prelude::*;

verus! {

/// What a task reports at the end of one checkpoint.
#[derive(Debug, PartialEq, Eq)]
pub enum Outcome<O> {
    /// Cancellation was observed. The inner work is abandoned.
    Cancelled,
    /// The inner work completed with this output.
    Finished(O),
    /// The inner work has to wait, and a wakeup is registered.
    Pending,
}

/// Where a checkpoint stands: the action it is about to take, or the
/// outcome it has reached.
#[derive(Debug, PartialEq, Eq)]
pub enum Step<O> {
    /// Read the latch on entry.
    CheckLatch,
    /// Advance the inner work by one step.
    AdvanceInner,
    /// Register the checkpoint's wakeup handle.
    RegisterWakeup,
    /// Read the latch again, now that the wakeup is registered.
    RecheckLatch,
    /// Nothing is left to do but to report.
    Report(Outcome<O>),
}

/// What an action brought back.
#[derive(Debug, PartialEq, Eq)]
pub enum Observation<O> {
    /// The latch as it was read: `true` when cancellation was requested.
    Latch(bool),
    /// The inner work's answer: its output when it completed.
    Inner(Option<O>),
    /// The wakeup handle is stored.
    Registered,
}

impl<O> Outcome<O> {
    /// Whether the task is over: every outcome but `Pending` is final.
    pub open spec fn is_final(self) -> bool {
        !(self is Pending)
    }

    /// Whether the task is over.
    pub fn completes(&self) -> (done: bool)
        ensures
            done == self.is_final(),
    {
        match self {
            Outcome::Pending => false,
            _ => true,
        }
    }
}

impl<O> Step<O> {
    /// How many actions a checkpoint that stands here may still take.
    pub open spec fn remaining(self) -> nat {
        match self {
            Step::CheckLatch => 4,
            Step::AdvanceInner => 3,
            Step::RegisterWakeup => 2,
            Step::RecheckLatch => 1,
            Step::Report(_) => 0,
        }
    }

    /// Whether `seen` is an answer to the action that is due here.
    pub open spec fn answered_by(self, seen: Observation<O>) -> bool {
        match self {
            Step::CheckLatch => seen is Latch,
            Step::AdvanceInner => seen is Inner,
            Step::RegisterWakeup => seen is Registered,
            Step::RecheckLatch => seen is Latch,
            Step::Report(_) => false,
        }
    }

    /// The step that follows this one once `seen` has come back.
    pub fn after(self, seen: Observation<O>) -> (next: Step<O>)
        ensures
            next == step_after(self, seen),
    {
        match (self, seen) {
            (Step::CheckLatch, Observation::Latch(cancel_requested)) => {
                if cancel_requested {
                    Step::Report(Outcome::Cancelled)
                } else {
                    Step::AdvanceInner
                }
            },
            (Step::AdvanceInner, Observation::Inner(Some(output))) => Step::Report(
                Outcome::Finished(output),
            ),
            (Step::AdvanceInner, Observation::Inner(None)) => Step::RegisterWakeup,
            (Step::RegisterWakeup, Observation::Registered) => Step::RecheckLatch,
            (Step::RecheckLatch, Observation::Latch(cancel_requested)) => {
                if cancel_requested {
                    Step::Report(Outcome::Cancelled)
                } else {
                    Step::Report(Outcome::Pending)
                }
            },
            (at, _) => at,
        }
    }
}

/// The rule of the checkpoint.
///
/// - On entry, a raised latch ends the checkpoint as `Cancelled`, and the
///   inner work is not touched; otherwise the inner work is advanced.
/// - Inner work that completed ends the checkpoint as `Finished`; inner work
///   that has to wait sends the checkpoint on to register its wakeup.
/// - Once the wakeup is registered the latch is read a second time: raised,
///   the checkpoint ends as `Cancelled`; not raised, it ends as `Pending`.
/// - An observation that answers no action due at `at` changes nothing.
pub open spec fn step_after<O>(at: Step<O>, seen: Observation<O>) -> Step<O> {
    match (at, seen) {
        (Step::CheckLatch, Observation::Latch(true)) => Step::Report(Outcome::Cancelled),
        (Step::CheckLatch, Observation::Latch(false)) => Step::AdvanceInner,
        (Step::AdvanceInner, Observation::Inner(Some(output))) => Step::Report(
            Outcome::Finished(output),
        ),
        (Step::AdvanceInner, Observation::Inner(None)) => Step::RegisterWakeup,
        (Step::RegisterWakeup, Observation::Registered) => Step::RecheckLatch,
        (Step::RecheckLatch, Observation::Latch(true)) => Step::Report(Outcome::Cancelled),
        (Step::RecheckLatch, Observation::Latch(false)) => Step::Report(Outcome::Pending),
        _ => at,
    }
}

/// The step that a checkpoint has reached once it has seen `run`, from its
/// entry on and in this order.
pub open spec fn step_reached<O>(run: Seq<Observation<O>>) -> Step<O>
    decreases run.len(),
{
    if run.len() == 0 {
        Step::CheckLatch
    } else {
        step_after(step_reached(run.drop_last()), run.last())
    }
}

/// Whether `run` is what a checkpoint can see from its entry on: each
/// observation answers the action that was due when it came.
pub open spec fn seen_in_turn<O>(run: Seq<Observation<O>>) -> bool
    decreases run.len(),
{
    run.len() > 0 ==> seen_in_turn(run.drop_last()) && step_reached(run.drop_last()).answered_by(
        run.last(),
    )
}

/// A checkpoint takes at most four actions: what was seen and what may
/// still be done never add up to more.
pub proof fn lemma_run_is_short<O>(run: Seq<Observation<O>>)
    requires
        seen_in_turn(run),
    ensures
        run.len() + step_reached(run).remaining() <= 4,
    decreases run.len(),
{
    if run.len() > 0 {
        lemma_run_is_short(run.drop_last());
        lemma_answer_makes_progress(step_reached(run.drop_last()), run.last());
    }
}

/// What a checkpoint that reported `out` has seen, written out. There are
/// four runs and no others:
/// - the latch set on entry, and `Cancelled`;
/// - the latch not set, then the inner work complete, and `Finished` with
///   its output;
/// - the latch not set, the inner work waiting, the wakeup registered, then
///   the latch set, and `Cancelled`;
/// - the same with the latch still not set, and `Pending`.
pub proof fn lemma_runs_of_a_checkpoint<O>(run: Seq<Observation<O>>, out: Outcome<O>)
    requires
        seen_in_turn(run),
        step_reached(run) == Step::Report(out),
    ensures
        out is Cancelled ==> run == seq![Observation::<O>::Latch(true)] || run == seq![
            Observation::<O>::Latch(false),
            Observation::<O>::Inner(None),
            Observation::<O>::Registered,
            Observation::<O>::Latch(true),
        ],
        out matches Outcome::Finished(output) ==> run == seq![
            Observation::<O>::Latch(false),
            Observation::<O>::Inner(Some(output)),
        ],
        out is Pending ==> run == seq![
            Observation::<O>::Latch(false),
            Observation::<O>::Inner(None),
            Observation::<O>::Registered,
            Observation::<O>::Latch(false),
        ],
        run.len() >= 1,
        run[0] is Latch,
        out == checkpoint_outcome(
            run[0]->Latch_0,
            if run.len() >= 2 && run[1] is Inner {
                run[1]->Inner_0
            } else {
                None
            },
            run.len() == 4 && run[3] is Latch && run[3]->Latch_0,
        ),
{
    lemma_run_is_short(run);
    let r1 = run.drop_last();
    if run.len() >= 1 {
        assert(seen_in_turn(r1));
        if r1.len() >= 1 {
            let r2 = r1.drop_last();
            assert(seen_in_turn(r2));
            if r2.len() >= 1 {
                let r3 = r2.drop_last();
                assert(seen_in_turn(r3));
                if r3.len() >= 1 {
                    let r4 = r3.drop_last();
                    assert(seen_in_turn(r4));
                    assert(r4.len() == 0);
                    assert(step_reached(r4) == Step::<O>::CheckLatch);
                    assert(step_reached(r3) == step_after(step_reached(r4), r3.last()));
                    assert(step_reached(r2) == step_after(step_reached(r3), r2.last()));
                    assert(step_reached(r1) == step_after(step_reached(r2), r1.last()));
                    assert(run =~= seq![r3.last(), r2.last(), r1.last(), run.last()]);
                } else {
                    assert(step_reached(r3) == Step::<O>::CheckLatch);
                    assert(step_reached(r2) == step_after(step_reached(r3), r2.last()));
                    assert(step_reached(r1) == step_after(step_reached(r2), r1.last()));
                    assert(run =~= seq![r2.last(), r1.last(), run.last()]);
                }
            } else {
                assert(step_reached(r2) == Step::<O>::CheckLatch);
                assert(step_reached(r1) == step_after(step_reached(r2), r1.last()));
                assert(run =~= seq![r1.last(), run.last()]);
            }
        } else {
            assert(step_reached(r1) == Step::<O>::CheckLatch);
            assert(run =~= seq![run.last()]);
        }
    }
}

/// How a checkpoint ends when the latch reads `first` on entry, the inner
/// work answers `inner` and the latch reads `second` after registration.
/// Only what the checkpoint gets to see counts: `inner` where `first` is
/// false, `second` where the inner work has to wait.
pub open spec fn checkpoint_outcome<O>(first: bool, inner: Option<O>, second: bool) -> Outcome<O> {
    if first {
        Outcome::Cancelled
    } else {
        match inner {
            Some(output) => Outcome::Finished(output),
            None => if second {
                Outcome::Cancelled
            } else {
                Outcome::Pending
            },
        }
    }
}

/// Step by step, a checkpoint reaches the outcome that `checkpoint_outcome`
/// gives: at once when the latch is set on entry, after the inner work when
/// that completed, and else after registration and the second reading.
pub proof fn lemma_steps_reach_outcome<O>(first: bool, inner: Option<O>, second: bool)
    ensures
        ({
            let entered = step_after(Step::CheckLatch, Observation::Latch(first));
            let advanced = step_after(entered, Observation::Inner(inner));
            let registered = step_after(advanced, Observation::Registered);
            let rechecked = step_after(registered, Observation::Latch(second));
            let outcome = checkpoint_outcome(first, inner, second);
            &&& first ==> entered == Step::Report(outcome)
            &&& !first && inner is Some ==> advanced == Step::Report(outcome)
            &&& !first && inner is None ==> rechecked == Step::Report(outcome)
        }),
{
}

/// An answered action brings the checkpoint strictly closer to its report.
pub proof fn lemma_answer_makes_progress<O>(at: Step<O>, seen: Observation<O>)
    requires
        at.answered_by(seen),
    ensures
        step_after(at, seen).remaining() < at.remaining(),
{
}

} // verus!

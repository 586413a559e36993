//! What the protocol guarantees, proved of the model for every interleaving.

use vstd::prelude::*;
use crate::model::Move;
use crate::model::Shared;
use crate::model::Task;
use crate::model::World;
use crate::model::lemma_launched_consistent;
use crate::model::lemma_move_keeps_consistent;
use crate::model::lemma_run_keeps_consistent;
use crate::protocol::Observation;
use crate::protocol::Outcome;
use crate::protocol::Step;

verus! {

/// The latch is one-shot: no move lowers a latch that is set.
pub proof fn latch_never_reverts<O>(w: World<O>, run: Seq<Move<O>>)
    requires
        w.shared.cancel_requested,
        w.admits_run(run),
    ensures
        w.after_run(run).shared.cancel_requested,
    decreases run.len(),
{
    if run.len() > 0 {
        latch_never_reverts(w.after(run[0]), run.drop_first());
    }
}

/// No wakeup is lost: however the release of the handle interleaves with
/// the task's checkpoints, a task that is parked once the handle is
/// released has been handed to the executor for another checkpoint.
pub proof fn no_lost_wakeup<O>(run: Seq<Move<O>>)
    requires
        World::<O>::launched().admits_run(run),
    ensures
        ({
            let w = World::<O>::launched().after_run(run);
            w.handle is Released && w.task is Parked ==> w.notified && w.admits(Move::Begin)
        }),
{
    lemma_launched_consistent::<O>();
    lemma_run_keeps_consistent(World::<O>::launched(), run);
}

/// A checkpoint that begins once cancellation was requested ends at its
/// first action: whatever it can see there, it reports `Cancelled`, the
/// inner work is not advanced, and the task is over.
pub proof fn cancelled_at_entry<O>(w: World<O>, seen: Observation<O>)
    requires
        w.shared.cancel_requested,
        w.task == Task::<O>::Polling(Step::CheckLatch),
        w.admits(Move::Act(seen)),
    ensures
        w.after(Move::Act(seen)).task == Task::<O>::Polling(Step::Report(Outcome::Cancelled)),
        w.after(Move::Act(seen)).after(Move::Return).task == Task::<O>::Completed(
            Outcome::Cancelled,
        ),
{
}

/// Cancellation is prompt: in whatever state the release of the handle
/// finds the task, after it a parked task is due for a checkpoint, and that
/// checkpoint reports `Cancelled` at its first action.
pub proof fn prompt_cancellation<O>(run: Seq<Move<O>>, seen: Observation<O>)
    requires
        World::<O>::launched().admits_run(run),
        World::<O>::launched().after_run(run).handle is Released,
        World::<O>::launched().after_run(run).task is Parked,
        World::<O>::launched().after_run(run).after(Move::Begin).admits(Move::Act(seen)),
    ensures
        ({
            let w = World::<O>::launched().after_run(run);
            let polled = w.after(Move::Begin).after(Move::Act(seen));
            &&& w.admits(Move::Begin)
            &&& polled.task == Task::<O>::Polling(Step::Report(Outcome::Cancelled))
            &&& polled.admits(Move::Return)
            &&& polled.after(Move::Return).task == Task::<O>::Completed(Outcome::Cancelled)
        }),
{
    lemma_launched_consistent::<O>();
    lemma_run_keeps_consistent(World::<O>::launched(), run);
    let w = World::<O>::launched().after_run(run);
    cancelled_at_entry(w.after(Move::Begin), seen);
}

/// A checkpoint under way when the handle is released does not slip away:
/// if it still reports `Pending`, the executor has been told to poll again.
pub proof fn pending_after_release_is_notified<O>(run: Seq<Move<O>>)
    requires
        World::<O>::launched().admits_run(run),
    ensures
        ({
            let w = World::<O>::launched().after_run(run);
            w.handle is Released && w.task == Task::<O>::Polling(Step::Report(Outcome::Pending))
                ==> w.notified
        }),
{
    lemma_launched_consistent::<O>();
    lemma_run_keeps_consistent(World::<O>::launched(), run);
}

/// The race that the second reading of the latch is there for. The handle
/// is released after the checkpoint's first reading and before its
/// registration, so the release finds nothing to fire. Every move of this
/// run can happen; the inner work is advanced once; the second reading can
/// only see the latch set, and the checkpoint reports `Cancelled`.
pub proof fn release_before_registration_is_caught<O>(w: World<O>, seen: Observation<O>)
    requires
        w.consistent(),
        w.handle is Held,
        w.task == Task::<O>::Polling(Step::CheckLatch),
    ensures
        ({
            let entered = w.after(Move::Act(Observation::Latch(false)));
            let raised = entered.after(Move::Raise);
            let released = raised.after(Move::Fire);
            let waited = released.after(Move::Act(Observation::Inner(None)));
            let registered = waited.after(Move::Act(Observation::Registered));
            &&& w.admits(Move::Act(Observation::Latch(false)))
            &&& entered.admits(Move::Raise)
            &&& raised.admits(Move::Fire)
            &&& released.admits(Move::Act(Observation::Inner(None)))
            &&& waited.admits(Move::Act(Observation::Registered))
            &&& registered.task == Task::<O>::Polling(Step::RecheckLatch)
            &&& registered.handle is Released
            &&& registered.admits(Move::Act(seen)) ==> seen == Observation::<O>::Latch(true)
            &&& registered.after(Move::Act(Observation::Latch(true))).task == Task::<O>::Polling(
                Step::Report(Outcome::Cancelled),
            )
        }),
{
}

/// Cancellation is idempotent: a second request leaves the shared state as
/// the first left it and fires nothing.
pub proof fn cancellation_is_idempotent(s: Shared)
    ensures
        s.request_cancel().cancel_requested,
        s.request_cancel().request_cancel() == s.request_cancel(),
        s.request_cancel().fired_by_cancel() is None,
{
}

/// A repeated request has the effect of the first alone: it changes neither
/// the latch nor the task nor the handle, and where nothing was registered
/// since the first it changes nothing at all.
pub proof fn repeated_request_changes_nothing<O>(w: World<O>)
    requires
        w.consistent(),
        w.admits(Move::Again),
    ensures
        w.after(Move::Again).consistent(),
        w.after(Move::Again).shared.cancel_requested == w.shared.cancel_requested,
        w.after(Move::Again).task == w.task,
        w.after(Move::Again).handle == w.handle,
        w.shared.wakeup is None ==> w.after(Move::Again) == w,
        w.after(Move::Again).after(Move::Again) == w.after(Move::Again),
{
}

/// Only the last registration counts: a new wakeup takes the place of the
/// one stored before, and it is the one that a request for cancellation
/// fires.
pub proof fn registration_overwrites(s: Shared, first: nat, second: nat)
    ensures
        s.register(first).register(second) == s.register(second),
        s.register(first).register(second).fired_by_cancel() == Some(second),
{
}

/// No cancellation is spurious: while the owner holds the handle, no
/// checkpoint reports `Cancelled` and no task is over as cancelled.
pub proof fn no_spurious_cancellation<O>(run: Seq<Move<O>>)
    requires
        World::<O>::launched().admits_run(run),
        World::<O>::launched().after_run(run).handle is Held,
    ensures
        ({
            let w = World::<O>::launched().after_run(run);
            &&& !w.shared.cancel_requested
            &&& w.task != Task::<O>::Polling(Step::Report(Outcome::Cancelled))
            &&& w.task != Task::<O>::Completed(Outcome::Cancelled)
        }),
{
    lemma_launched_consistent::<O>();
    lemma_run_keeps_consistent(World::<O>::launched(), run);
}

/// While the owner holds the handle, a checkpoint whose inner work completes
/// with `output` reports `Finished(output)`: the latch reads as not set, the
/// inner work is advanced, and its output is what the task ends with.
pub proof fn completion_carries_output<O>(w: World<O>, seen: Observation<O>, output: O)
    requires
        w.consistent(),
        w.handle is Held,
        w.task == Task::<O>::Polling(Step::CheckLatch),
        w.admits(Move::Act(seen)),
    ensures
        seen == Observation::<O>::Latch(false),
        ({
            let entered = w.after(Move::Act(seen));
            let advanced = entered.after(Move::Act(Observation::Inner(Some(output))));
            &&& entered.task == Task::<O>::Polling(Step::AdvanceInner)
            &&& entered.admits(Move::Act(Observation::Inner(Some(output))))
            &&& advanced.task == Task::<O>::Polling(Step::Report(Outcome::Finished(output)))
            &&& advanced.admits(Move::Return)
            &&& advanced.after(Move::Return).task == Task::<O>::Completed(
                Outcome::Finished(output),
            )
        }),
{
}

/// A task that is over is let alone: no move that can follow is a move
/// of a checkpoint, and none changes what the task reported.
pub proof fn completed_task_is_not_polled<O>(w: World<O>, m: Move<O>)
    requires
        w.task is Completed,
        w.admits(m),
    ensures
        m is Raise || m is Fire || m is Again || m is Notify,
        w.after(m).task == w.task,
{
}

/// After completion nothing is observable: whatever follows, the release of
/// the handle included, the task stays as it reported and the state stays
/// consistent.
pub proof fn post_completion_silence<O>(w: World<O>, run: Seq<Move<O>>)
    requires
        w.consistent(),
        w.task is Completed,
        w.admits_run(run),
    ensures
        w.after_run(run).task == w.task,
        w.after_run(run).consistent(),
    decreases run.len(),
{
    if run.len() > 0 {
        completed_task_is_not_polled(w, run[0]);
        lemma_move_keeps_consistent(w, run[0]);
        post_completion_silence(w.after(run[0]), run.drop_first());
    }
}

/// Releasing the handle of a task that is over is always possible and
/// changes nothing of the task.
pub proof fn release_after_completion<O>(w: World<O>)
    requires
        w.consistent(),
        w.task is Completed,
        w.handle is Held,
    ensures
        w.admits_run(seq![Move::<O>::Raise, Move::<O>::Fire]),
        w.after_run(seq![Move::<O>::Raise, Move::<O>::Fire]).task == w.task,
        w.after_run(seq![Move::<O>::Raise, Move::<O>::Fire]).handle is Released,
{
    let run = seq![Move::<O>::Raise, Move::<O>::Fire];
    let rest = run.drop_first();
    assert(rest =~= seq![Move::<O>::Fire]);
    assert(rest.drop_first() =~= Seq::<Move<O>>::empty());
    let w1 = w.after(Move::Raise);
    let w2 = w1.after(Move::Fire);
    assert(w2.admits_run(rest.drop_first()));
    assert(w1.admits_run(rest));
    assert(w2.after_run(rest.drop_first()) == w2);
    assert(w1.after_run(rest) == w2);
}

} // verus!

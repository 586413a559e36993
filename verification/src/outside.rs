//! What this library takes on trust from std, `futures` and `tokio`.
//!
//! Nothing in this file is proved. Each item names the function or type it
//! stands for and says what is believed of it. Most claim no more than the
//! signature; where more is claimed, the comment says so.

use futures::task::AtomicWaker;
use std::future::Future;
use std::pin::Pin;
use std::sync::Arc;
use std::task::Context;
use std::task::Poll;
use std::task::Waker;
use tokio::runtime::Handle;
use tokio::runtime::TryCurrentError;
use vstd::prelude::*;
use crate::state::LifelineInner;
use crate::task::LifelineFuture;

verus! {

/// `futures::task::AtomicWaker`: a slot for one wakeup handle, shared between
/// the task that registers and whoever fires.
#[verifier::external_type_specification]
#[verifier::external_body]
pub struct ExAtomicWaker(AtomicWaker);

/// `std::task::Waker`: the handle by which an executor is told to poll a task.
#[verifier::external_type_specification]
#[verifier::external_body]
pub struct ExWaker(Waker);

/// `std::task::Context`: what an executor hands to a task at a checkpoint.
#[verifier::external_type_specification]
#[verifier::external_body]
pub struct ExContext<'a>(Context<'a>);

/// `std::pin::Pin`: a pointer whose target stays where it is.
#[verifier::external_type_specification]
#[verifier::external_body]
#[verifier::reject_recursive_types(P)]
pub struct ExPin<P>(Pin<P>);

/// `std::task::Poll`: what a future answers when it is polled.
#[verifier::external_type_specification]
#[verifier::external_body]
#[verifier::reject_recursive_types(T)]
pub struct ExPoll<T>(Poll<T>);

/// `tokio::runtime::Handle`: a reference to a running executor.
#[verifier::external_type_specification]
#[verifier::external_body]
pub struct ExHandle(Handle);

/// `tokio::runtime::TryCurrentError`: why no executor could be found.
#[verifier::external_type_specification]
#[verifier::external_body]
pub struct ExTryCurrentError(TryCurrentError);

/// `AtomicWaker::new`: a slot with no waker in it. Nothing is claimed of the
/// result.
pub assume_specification[ AtomicWaker::new ]() -> AtomicWaker;

/// `AtomicWaker::register`: stores a clone of `waker` in the slot, in place
/// of what was there; where a `wake` is under way on another thread it
/// fires `waker` itself instead. Nothing is claimed of the slot afterwards.
pub assume_specification[ AtomicWaker::register ](slot: &AtomicWaker, waker: &Waker);

/// `AtomicWaker::wake`: takes the stored waker out of the slot, if there is
/// one, and fires it. Firing runs the waker's own code. Nothing is claimed
/// of the slot afterwards.
pub assume_specification[ AtomicWaker::wake ](slot: &AtomicWaker);

/// `Context::waker`: the wakeup handle of the current checkpoint. Nothing is
/// claimed of the result.
pub assume_specification<'a>[ Context::<'a>::waker ](cx: &Context<'a>) -> &'a Waker;

/// `Pin::new`: pins a reference to a value that may be moved freely. Nothing
/// is claimed of the result.
#[verifier::external_body]
pub(crate) fn pinned<'a, F: Unpin>(future: &'a mut F) -> Pin<&'a mut F> {
    Pin::new(future)
}

/// `Pin::get_mut`: the plain reference behind the pin. The task may be moved
/// freely because the work in it may. Nothing is claimed of the result.
#[verifier::external_body]
pub(crate) fn unpinned<'a, F: Future + Unpin>(task: Pin<&'a mut LifelineFuture<F>>) -> &'a mut LifelineFuture<
    F,
> {
    task.get_mut()
}

/// `Future::poll`: advances the future by one step. `Some` carries the
/// output of a future that answered `Poll::Ready`, `None` stands for
/// `Poll::Pending`. Which of the two comes back is up to the future.
#[verifier::external_body]
pub(crate) fn poll_inner<F: Future>(future: Pin<&mut F>, cx: &mut Context<'_>) -> Option<
    F::Output,
> {
    match future.poll(cx) {
        Poll::Ready(output) => Some(output),
        Poll::Pending => None,
    }
}

/// `Poll::Ready` of the unit value.
#[verifier::external_body]
pub(crate) fn poll_ready() -> Poll<()> {
    Poll::Ready(())
}

/// `Poll::Pending`.
#[verifier::external_body]
pub(crate) fn poll_pending() -> Poll<()> {
    Poll::Pending
}

/// `Box::pin`: moves the value to the heap and pins it there. Nothing is
/// claimed of the result.
pub assume_specification<T>[ Box::<T>::pin ](x: T) -> Pin<Box<T>>;

/// `Arc::clone`: one more reference to the same allocation.
///
/// Claimed: the new reference equals the old one, as two references to one
/// value do.
#[verifier::external_body]
pub(crate) fn share(state: &Arc<LifelineInner>) -> (other: Arc<LifelineInner>)
    ensures
        other == *state,
{
    Arc::clone(state)
}

/// `Handle::try_current`: the executor that runs the calling thread, or an
/// error when there is none. tokio documents that it never panics. Which of
/// the two comes back depends on the thread, so nothing is claimed of it.
pub assume_specification[ Handle::try_current ]() -> Result<Handle, TryCurrentError>;

/// `Handle::spawn`: hands the task to the executor, which polls it from then
/// on. The join handle that tokio returns is let go, which leaves the task
/// running. Nothing is claimed of what the executor does.
#[verifier::external_body]
pub(crate) fn spawn_task_inner<F>(runtime: &Handle, task: LifelineFuture<Pin<Box<F>>>) where
    F: Future + Send + 'static,
 {
    drop(runtime.spawn(task))
}

} // verus!

//! Naming and launching of tasks.

use std::future::Future;
use std::sync::Arc;
use tokio::runtime::Handle;
use tokio::runtime::TryCurrentError;
use vstd::prelude::*;
use vstd::string::*;
use crate::handle::Lifeline;
use crate::outside::share;
use crate::outside::spawn_task_inner;
use crate::state::LifelineInner;
use crate::task::LifelineFuture;

verus! {

/// Why a task could not be launched.
#[derive(Debug, PartialEq, Eq)]
pub enum SpawnError {
    /// The calling thread is not run by an executor.
    NoExecutor,
}

/// The full name of a task: the label of its owner, a slash, and the task's
/// own name.
pub open spec fn qualified_name(owner: Seq<char>, name: Seq<char>) -> Seq<char> {
    owner + seq!['/'] + name
}

/// The full name of the task called `name` that belongs to `owner`.
pub fn task_name(owner: &str, name: &str) -> (full: String)
    ensures
        full@ == qualified_name(owner@, name@),
{
    proof {
        reveal_strlit("/");
        assert("/"@ =~= seq!['/']);
    }
    String::from_str(owner).concat("/").concat(name)
}

/// Wraps `fut` and makes the handle that cancels it: both refer to one
/// fresh cancellation state.
pub fn tether<F: Future>(name: String, fut: F) -> (pair: (LifelineFuture<F>, Lifeline))
    ensures
        pair.0.label() == name@,
        pair.0.work() == fut,
        pair.0.state() == pair.1.state(),
{
    let inner = Arc::new(LifelineInner::new());
    let service = LifelineFuture::new(name, fut, share(&inner));
    (service, Lifeline::new(inner))
}

/// Executes `fut` on `runtime` until it completes or the returned handle is
/// released.
pub fn spawn_task_on<F>(runtime: &Handle, name: String, fut: F) -> Lifeline where
    F: Future + Send + 'static,
 {
    let (service, lifeline) = tether(name, Box::pin(fut));
    spawn_task_inner(runtime, service);
    lifeline
}

/// Launches on the executor that `current` holds, if it holds one.
pub fn spawn_task_with<F>(
    current: Result<Handle, TryCurrentError>,
    name: String,
    fut: F,
) -> (launched: Result<Lifeline, SpawnError>) where F: Future + Send + 'static
    ensures
        current is Ok ==> launched is Ok,
        current is Err ==> launched == Err::<Lifeline, SpawnError>(SpawnError::NoExecutor),
{
    match current {
        Ok(runtime) => Ok(spawn_task_on(&runtime, name, fut)),
        Err(_) => Err(SpawnError::NoExecutor),
    }
}

/// Executes `fut` on the executor of the calling thread until it completes
/// or the returned handle is released.
pub fn spawn_task<F>(name: String, fut: F) -> Result<Lifeline, SpawnError> where
    F: Future + Send + 'static,
 {
    spawn_task_with(Handle::try_current(), name, fut)
}

} // verus!

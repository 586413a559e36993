use futures::future::pending;
use futures::future::ready;
use futures::task::noop_waker;
use lifeline::handle::Lifeline;
use lifeline::protocol::Outcome;
use lifeline::spawn::tether;
use lifeline::state::LifelineInner;
use lifeline::task::LifelineFuture;
use std::future::Future;
use std::pin::Pin;
use std::sync::atomic::AtomicUsize;
use std::sync::atomic::Ordering;
use std::sync::Arc;
use std::task::Context;
use std::task::Poll;
use std::task::Wake;
use std::task::Waker;

struct CountingWaker {
    fired: AtomicUsize,
}

impl Wake for CountingWaker {
    fn wake(self: Arc<Self>) {
        self.fired.fetch_add(1, Ordering::SeqCst);
    }
}

fn counting_waker() -> (Arc<CountingWaker>, Waker) {
    let counter = Arc::new(CountingWaker { fired: AtomicUsize::new(0) });
    (counter.clone(), Waker::from(counter))
}

/// Work that counts how often it is advanced and never completes.
struct Counted {
    advanced: Arc<AtomicUsize>,
}

impl Future for Counted {
    type Output = u8;

    fn poll(self: Pin<&mut Self>, _cx: &mut Context<'_>) -> Poll<u8> {
        self.advanced.fetch_add(1, Ordering::SeqCst);
        Poll::Pending
    }
}

/// Work that requests cancellation while it is advanced, and then waits.
struct CancelsItself {
    inner: Arc<LifelineInner>,
}

impl Future for CancelsItself {
    type Output = u8;

    fn poll(self: Pin<&mut Self>, _cx: &mut Context<'_>) -> Poll<u8> {
        self.inner.abort();
        Poll::Pending
    }
}

#[test]
fn work_that_is_ready_finishes_with_its_output() {
    let (mut task, _lifeline) = tether(String::from("ready"), ready(42));
    let waker = noop_waker();
    let mut cx = Context::from_waker(&waker);
    assert_eq!(task.checkpoint(&mut cx), Outcome::Finished(42));
}

#[test]
fn work_that_waits_is_pending_while_the_handle_lives() {
    let (mut task, _lifeline) = tether(String::from("waits"), pending::<u8>());
    let waker = noop_waker();
    let mut cx = Context::from_waker(&waker);
    assert_eq!(task.checkpoint(&mut cx), Outcome::Pending);
    assert_eq!(task.checkpoint(&mut cx), Outcome::Pending);
}

#[test]
fn releasing_the_handle_before_the_first_checkpoint_cancels() {
    let (mut task, lifeline) = tether(String::from("early"), ready(7));
    lifeline.release();
    let waker = noop_waker();
    let mut cx = Context::from_waker(&waker);
    assert_eq!(task.checkpoint(&mut cx), Outcome::Cancelled);
}

#[test]
fn releasing_the_handle_fires_the_registered_wakeup_once() {
    let (mut task, lifeline) = tether(String::from("suspended"), pending::<u8>());
    let (counter, waker) = counting_waker();
    let mut cx = Context::from_waker(&waker);
    assert_eq!(task.checkpoint(&mut cx), Outcome::Pending);
    assert_eq!(counter.fired.load(Ordering::SeqCst), 0);
    lifeline.release();
    assert_eq!(counter.fired.load(Ordering::SeqCst), 1);
    assert_eq!(task.checkpoint(&mut cx), Outcome::Cancelled);
}

#[test]
fn cancelled_work_is_not_advanced_again() {
    let advanced = Arc::new(AtomicUsize::new(0));
    let (mut task, lifeline) = tether(
        String::from("abandoned"),
        Counted { advanced: advanced.clone() },
    );
    let waker = noop_waker();
    let mut cx = Context::from_waker(&waker);
    assert_eq!(task.checkpoint(&mut cx), Outcome::Pending);
    assert_eq!(advanced.load(Ordering::SeqCst), 1);
    lifeline.release();
    assert_eq!(task.checkpoint(&mut cx), Outcome::Cancelled);
    assert_eq!(task.checkpoint(&mut cx), Outcome::Cancelled);
    assert_eq!(advanced.load(Ordering::SeqCst), 1);
}

#[test]
fn cancellation_between_the_two_readings_is_seen_by_the_second() {
    let inner = Arc::new(LifelineInner::new());
    let mut task = LifelineFuture::new(
        String::from("raced"),
        CancelsItself { inner: inner.clone() },
        inner.clone(),
    );
    let (counter, waker) = counting_waker();
    let mut cx = Context::from_waker(&waker);
    assert_eq!(task.checkpoint(&mut cx), Outcome::Cancelled);
    assert_eq!(counter.fired.load(Ordering::SeqCst), 0);
}

#[test]
fn finished_task_is_not_disturbed_by_the_release_of_its_handle() {
    let (mut task, lifeline) = tether(String::from("done"), ready(5));
    let (counter, waker) = counting_waker();
    let mut cx = Context::from_waker(&waker);
    assert_eq!(task.checkpoint(&mut cx), Outcome::Finished(5));
    lifeline.release();
    assert_eq!(counter.fired.load(Ordering::SeqCst), 0);
    drop(task);
}

#[test]
fn handle_let_go_without_release_leaves_the_task_running() {
    let (mut task, lifeline) = tether(String::from("kept"), pending::<u8>());
    let (counter, waker) = counting_waker();
    let mut cx = Context::from_waker(&waker);
    assert_eq!(task.checkpoint(&mut cx), Outcome::Pending);
    drop(lifeline);
    assert_eq!(counter.fired.load(Ordering::SeqCst), 0);
    assert_eq!(task.checkpoint(&mut cx), Outcome::Pending);
}

#[test]
fn handle_may_outlive_the_task() {
    let (task, lifeline) = tether(String::from("short"), ready(5));
    drop(task);
    lifeline.release();
}

#[test]
fn new_keeps_name_and_state() {
    let inner = Arc::new(LifelineInner::new());
    let mut task = LifelineFuture::new(String::from("Owner/run"), pending::<u8>(), inner.clone());
    assert_eq!(task.name(), "Owner/run");
    let lifeline = Lifeline::new(inner);
    let waker = noop_waker();
    let mut cx = Context::from_waker(&waker);
    assert_eq!(task.checkpoint(&mut cx), Outcome::Pending);
    assert_eq!(task.name(), "Owner/run");
    lifeline.release();
    assert_eq!(task.checkpoint(&mut cx), Outcome::Cancelled);
    assert_eq!(task.name(), "Owner/run");
}

#[test]
fn poll_is_ready_when_the_work_is() {
    let (mut task, _lifeline) = tether(String::from("ready"), ready(42));
    let waker = noop_waker();
    let mut cx = Context::from_waker(&waker);
    assert_eq!(Pin::new(&mut task).poll(&mut cx), Poll::Ready(()));
}

#[test]
fn poll_is_pending_while_the_work_waits() {
    let (mut task, _lifeline) = tether(String::from("waits"), pending::<u8>());
    let waker = noop_waker();
    let mut cx = Context::from_waker(&waker);
    assert_eq!(Pin::new(&mut task).poll(&mut cx), Poll::Pending);
}

#[test]
fn poll_is_ready_once_the_handle_is_released() {
    let (mut task, lifeline) = tether(String::from("waits"), pending::<u8>());
    let waker = noop_waker();
    let mut cx = Context::from_waker(&waker);
    assert_eq!(Pin::new(&mut task).poll(&mut cx), Poll::Pending);
    lifeline.release();
    assert_eq!(Pin::new(&mut task).poll(&mut cx), Poll::Ready(()));
}

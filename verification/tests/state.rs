use lifeline::handle::Lifeline;
use lifeline::state::LifelineInner;
use std::sync::atomic::AtomicBool;
use std::sync::atomic::AtomicUsize;
use std::sync::atomic::Ordering;
use std::sync::Arc;
use std::task::Wake;
use std::task::Waker;

struct Bell {
    rung: AtomicUsize,
}

impl Wake for Bell {
    fn wake(self: Arc<Self>) {
        self.rung.fetch_add(1, Ordering::SeqCst);
    }
}

fn bell() -> (Arc<Bell>, Waker) {
    let bell = Arc::new(Bell { rung: AtomicUsize::new(0) });
    (bell.clone(), Waker::from(bell))
}

#[test]
fn fresh_state_has_no_request() {
    let inner = LifelineInner::new();
    assert!(!inner.is_cancel_requested());
}

#[test]
fn abort_sets_the_latch_for_good() {
    let inner = LifelineInner::new();
    inner.abort();
    assert!(inner.is_cancel_requested());
    assert!(inner.is_cancel_requested());
}

#[test]
fn abort_without_a_registration_fires_nothing() {
    let inner = LifelineInner::new();
    let (bell, waker) = bell();
    inner.abort();
    inner.register_for_wakeup(&waker);
    assert_eq!(bell.rung.load(Ordering::SeqCst), 0);
    assert!(inner.is_cancel_requested());
}

#[test]
fn abort_fires_the_registered_wakeup() {
    let inner = LifelineInner::new();
    let (bell, waker) = bell();
    inner.register_for_wakeup(&waker);
    assert_eq!(bell.rung.load(Ordering::SeqCst), 0);
    inner.abort();
    assert_eq!(bell.rung.load(Ordering::SeqCst), 1);
}

#[test]
fn abort_twice_is_abort_once() {
    let inner = LifelineInner::new();
    let (bell, waker) = bell();
    inner.register_for_wakeup(&waker);
    inner.abort();
    inner.abort();
    inner.abort();
    assert_eq!(bell.rung.load(Ordering::SeqCst), 1);
    assert!(inner.is_cancel_requested());
}

#[test]
fn only_the_last_registration_is_fired() {
    let inner = LifelineInner::new();
    let (first_bell, first) = bell();
    let (second_bell, second) = bell();
    inner.register_for_wakeup(&first);
    inner.register_for_wakeup(&second);
    inner.abort();
    assert_eq!(first_bell.rung.load(Ordering::SeqCst), 0);
    assert_eq!(second_bell.rung.load(Ordering::SeqCst), 1);
}

#[test]
fn releasing_the_handle_requests_cancellation() {
    let inner = Arc::new(LifelineInner::new());
    let lifeline = Lifeline::new(inner.clone());
    assert!(!inner.is_cancel_requested());
    lifeline.release();
    assert!(inner.is_cancel_requested());
}

#[test]
fn handle_let_go_without_release_requests_nothing() {
    let inner = Arc::new(LifelineInner::new());
    let (bell, waker) = bell();
    inner.register_for_wakeup(&waker);
    let lifeline = Lifeline::new(inner.clone());
    drop(lifeline);
    assert!(!inner.is_cancel_requested());
    assert_eq!(bell.rung.load(Ordering::SeqCst), 0);
}

#[test]
fn each_handle_cancels_its_own_state() {
    let first = Arc::new(LifelineInner::new());
    let second = Arc::new(LifelineInner::new());
    let one = Lifeline::new(first.clone());
    let other = Lifeline::new(second.clone());
    one.release();
    assert!(first.is_cancel_requested());
    assert!(!second.is_cancel_requested());
    other.release();
    assert!(second.is_cancel_requested());
}

#[test]
fn request_after_the_handle_is_gone_is_harmless() {
    let inner = Arc::new(LifelineInner::new());
    let (bell, waker) = bell();
    inner.register_for_wakeup(&waker);
    let lifeline = Lifeline::new(inner.clone());
    lifeline.release();
    inner.abort();
    assert_eq!(bell.rung.load(Ordering::SeqCst), 1);
    assert!(inner.is_cancel_requested());
}

/// A waker that notes, when it is fired, whether the latch was set by then.
struct Witness {
    inner: Arc<LifelineInner>,
    fired: AtomicUsize,
    latch_was_set: AtomicBool,
}

impl Wake for Witness {
    fn wake(self: Arc<Self>) {
        self.latch_was_set.store(self.inner.is_cancel_requested(), Ordering::SeqCst);
        self.fired.fetch_add(1, Ordering::SeqCst);
    }
}

#[test]
fn abort_sets_the_latch_before_it_fires_the_wakeup() {
    let inner = Arc::new(LifelineInner::new());
    let witness = Arc::new(Witness {
        inner: inner.clone(),
        fired: AtomicUsize::new(0),
        latch_was_set: AtomicBool::new(false),
    });
    let waker = Waker::from(witness.clone());
    inner.register_for_wakeup(&waker);
    assert_eq!(witness.fired.load(Ordering::SeqCst), 0);
    inner.abort();
    assert_eq!(witness.fired.load(Ordering::SeqCst), 1);
    assert!(witness.latch_was_set.load(Ordering::SeqCst));
}

#[test]
fn release_sets_the_latch_before_it_fires_the_wakeup() {
    let inner = Arc::new(LifelineInner::new());
    let witness = Arc::new(Witness {
        inner: inner.clone(),
        fired: AtomicUsize::new(0),
        latch_was_set: AtomicBool::new(false),
    });
    let waker = Waker::from(witness.clone());
    inner.register_for_wakeup(&waker);
    Lifeline::new(inner.clone()).release();
    assert_eq!(witness.fired.load(Ordering::SeqCst), 1);
    assert!(witness.latch_was_set.load(Ordering::SeqCst));
}

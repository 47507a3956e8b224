use signal_ops::init;
use signal_ops::PollStep;
use signal_ops::SignalError;
use signal_ops::SubscriptionStatus;

use futures::task::noop_waker;

/// A waker that counts how often it is invoked, so a test can observe that
/// unbind really wakes the task suspended in a poll.
struct CountingWaker {
    count: std::sync::atomic::AtomicUsize,
}

impl std::task::Wake for CountingWaker {
    fn wake(self: std::sync::Arc<Self>) {
        self.count.fetch_add(1, std::sync::atomic::Ordering::SeqCst);
    }
}

#[test]
fn init_has_no_live_ids() {
    let m = init();
    assert_eq!(m.next_id(), 0);
    assert!(!m.is_live(0));
}

#[test]
fn bind_returns_sequential_ids() {
    let mut m = init();
    assert_eq!(m.op_signal_bind(2, true), Ok(0));
    assert_eq!(m.op_signal_bind(15, true), Ok(1));
    assert!(m.is_live(0));
    assert!(m.is_live(1));
    assert_eq!(m.next_id(), 2);
}

#[test]
fn bind_failure_registers_nothing() {
    let mut m = init();
    assert_eq!(m.op_signal_bind(2, false), Err(SignalError::SubscriptionError));
    assert_eq!(m.next_id(), 0);
    assert!(!m.is_live(0));
    assert_eq!(m.op_signal_bind(2, true), Ok(0));
}

#[test]
fn poll_unknown_id_fails_invalid_resource() {
    let mut m = init();
    let r = m.op_signal_poll(3, true, noop_waker(), None);
    assert_eq!(r, Err(SignalError::InvalidResource));
    assert_eq!(m.next_id(), 0);
}

#[test]
fn unbind_unknown_id_fails_unknown_resource() {
    let mut m = init();
    assert_eq!(m.op_signal_unbind(3), Err(SignalError::UnknownResource));
    assert_eq!(m.next_id(), 0);
}

#[test]
fn unbind_twice_fails_second_time() {
    let mut m = init();
    assert_eq!(m.op_signal_bind(1, true), Ok(0));
    assert_eq!(m.op_signal_unbind(0), Ok(()));
    assert_eq!(m.op_signal_unbind(0), Err(SignalError::UnknownResource));
}

#[test]
fn poll_with_delivery_resolves_immediately() {
    let mut m = init();
    assert_eq!(m.op_signal_bind(2, true), Ok(0));
    let r = m.op_signal_poll(0, true, noop_waker(), Some(SubscriptionStatus::Delivered));
    assert_eq!(r, Ok(PollStep::Resolved { delivered: true }));
    assert!(m.is_live(0));
}

#[test]
fn suspended_poll_resolves_after_delivery() {
    let mut m = init();
    assert_eq!(m.op_signal_bind(2, true), Ok(0));
    let first = m.op_signal_poll(0, true, noop_waker(), Some(SubscriptionStatus::NotReady));
    assert_eq!(first, Ok(PollStep::Suspend));
    let resumed = m.op_signal_poll(0, false, noop_waker(), Some(SubscriptionStatus::Delivered));
    assert_eq!(resumed, Ok(PollStep::Resolved { delivered: true }));
}

#[test]
fn ended_stream_resolves_without_delivery() {
    let mut m = init();
    assert_eq!(m.op_signal_bind(2, true), Ok(0));
    let r = m.op_signal_poll(0, true, noop_waker(), Some(SubscriptionStatus::Ended));
    assert_eq!(r, Ok(PollStep::Resolved { delivered: false }));
    assert!(m.is_live(0));
    assert_eq!(m.op_signal_unbind(0), Ok(()));
}

#[test]
fn unbind_wakes_suspended_poll() {
    let mut m = init();
    assert_eq!(m.op_signal_bind(2, true), Ok(0));
    let state = std::sync::Arc::new(CountingWaker {
        count: std::sync::atomic::AtomicUsize::new(0),
    });
    let waker = std::task::Waker::from(state.clone());
    let first = m.op_signal_poll(0, true, waker, Some(SubscriptionStatus::NotReady));
    assert_eq!(first, Ok(PollStep::Suspend));
    assert_eq!(state.count.load(std::sync::atomic::Ordering::SeqCst), 0);
    assert_eq!(m.op_signal_unbind(0), Ok(()));
    assert_eq!(state.count.load(std::sync::atomic::Ordering::SeqCst), 1);
}

#[test]
fn unbind_without_pending_poll_wakes_nothing() {
    let mut m = init();
    assert_eq!(m.op_signal_bind(2, true), Ok(0));
    let state = std::sync::Arc::new(CountingWaker {
        count: std::sync::atomic::AtomicUsize::new(0),
    });
    let waker = std::task::Waker::from(state.clone());
    let r = m.op_signal_poll(0, true, waker, Some(SubscriptionStatus::Delivered));
    assert_eq!(r, Ok(PollStep::Resolved { delivered: true }));
    assert_eq!(m.op_signal_unbind(0), Ok(()));
    assert_eq!(state.count.load(std::sync::atomic::Ordering::SeqCst), 0);
}

#[test]
fn bind_poll_unbind_scenario_id_seven() {
    let mut m = init();
    for signo in 0i32..7 {
        m.op_signal_bind(signo + 10, true).unwrap();
    }
    assert_eq!(m.op_signal_bind(2, true), Ok(7));
    let first = m.op_signal_poll(7, true, noop_waker(), Some(SubscriptionStatus::NotReady));
    assert_eq!(first, Ok(PollStep::Suspend));
    assert_eq!(m.op_signal_unbind(7), Ok(()));
    let resumed = m.op_signal_poll(7, false, noop_waker(), None);
    assert_eq!(resumed, Ok(PollStep::Resolved { delivered: false }));
    let fresh = m.op_signal_poll(7, true, noop_waker(), None);
    assert_eq!(fresh, Err(SignalError::InvalidResource));
}

#[test]
fn delivery_scenario_id_nine() {
    let mut m = init();
    for signo in 0i32..9 {
        m.op_signal_bind(signo + 10, true).unwrap();
    }
    assert_eq!(m.op_signal_bind(2, true), Ok(9));
    let r = m.op_signal_poll(9, true, noop_waker(), Some(SubscriptionStatus::Delivered));
    assert_eq!(r, Ok(PollStep::Resolved { delivered: true }));
}

#[test]
fn unbind_take_waker_surrenders_stored_handle() {
    let mut m = init();
    assert_eq!(m.op_signal_bind(2, true), Ok(0));
    let state = std::sync::Arc::new(CountingWaker {
        count: std::sync::atomic::AtomicUsize::new(0),
    });
    let waker = std::task::Waker::from(state.clone());
    let first = m.op_signal_poll(0, true, waker, Some(SubscriptionStatus::NotReady));
    assert_eq!(first, Ok(PollStep::Suspend));
    let (r, surrendered) = m.unbind_take_waker(0);
    assert_eq!(r, Ok(()));
    assert!(!m.is_live(0));
    // the handle is handed out, not yet invoked; the caller owes the wake
    assert_eq!(state.count.load(std::sync::atomic::Ordering::SeqCst), 0);
    surrendered.expect("a suspended poll leaves its handle to surrender").wake();
    assert_eq!(state.count.load(std::sync::atomic::Ordering::SeqCst), 1);
}

#[test]
fn unbind_take_waker_without_pending_poll() {
    let mut m = init();
    assert_eq!(m.op_signal_bind(2, true), Ok(0));
    let (r, surrendered) = m.unbind_take_waker(0);
    assert_eq!(r, Ok(()));
    assert!(surrendered.is_none());
    let (r2, surrendered2) = m.unbind_take_waker(0);
    assert_eq!(r2, Err(SignalError::UnknownResource));
    assert!(surrendered2.is_none());
}

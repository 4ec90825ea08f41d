use rust9x_sys::c::ERROR_TIMEOUT;
use rust9x_sys::condvar::{
    event_wait_succeeded, kind, srw_wait_succeeded, Condvar, EventAction, Kind, MutexState,
    ReentrantMutex, WaitState, Wake, BROADCAST, MAX_EVENTS, SIGNAL,
};

#[test]
fn event_indices() {
    assert_eq!(SIGNAL, 0);
    assert_eq!(BROADCAST, 1);
    assert_eq!(MAX_EVENTS, 2);
}

#[test]
fn kind_follows_srwlock_availability() {
    assert_eq!(kind(true), Kind::SRWLock);
    assert_eq!(kind(false), Kind::CriticalSection);
}

#[test]
fn timed_wait_results() {
    assert!(srw_wait_succeeded(1));
    assert!(!srw_wait_succeeded(0));
    assert!(!event_wait_succeeded(ERROR_TIMEOUT));
    assert!(event_wait_succeeded(0));
    assert!(event_wait_succeeded(1));
    assert!(event_wait_succeeded(258));
}

#[test]
fn wake_classification() {
    assert_eq!(Wake::from_wait_result(0), Wake::Signal);
    assert_eq!(Wake::from_wait_result(1), Wake::Broadcast);
    assert_eq!(Wake::from_wait_result(258), Wake::Timeout);
    assert_eq!(Wake::from_wait_result(u32::MAX), Wake::Timeout);
}

#[test]
fn condvar_publishes_inner_once() {
    let mut cv = Condvar::new();
    assert_eq!(cv.published_inner(), None);
    assert_eq!(cv.state_to_free(Kind::CriticalSection), None);
    assert_eq!(cv.publish_inner(0x5000), (0x5000, false));
    assert_eq!(cv.published_inner(), Some(0x5000));
    assert_eq!(cv.publish_inner(0x6000), (0x5000, true));
    assert_eq!(cv.state_to_free(Kind::CriticalSection), Some(0x5000));
    assert_eq!(cv.state_to_free(Kind::SRWLock), None);
}

#[test]
fn notify_without_waiters_is_lost() {
    let mut s = WaitState::new();
    assert_eq!(s.notify_one(), EventAction::Nothing);
    assert_eq!(s.notify_all(), EventAction::Nothing);
    assert_eq!(s.waiting(), 0);
    s.register();
    // A waiter that registers later sees no notification: it times out.
    s.woken(Wake::Timeout);
    assert_eq!(s.leave(), EventAction::CloseBroadcastOpenBlock);
}

#[test]
fn notify_one_wakes_one_waiter() {
    let mut s = WaitState::new();
    s.register();
    s.register();
    assert_eq!(s.notify_one(), EventAction::SetSignal);
    s.woken(Wake::Signal);
    assert_eq!(s.leave(), EventAction::Nothing);
    assert_eq!(s.waiting(), 1);
    s.woken(Wake::Timeout);
    assert_eq!(s.leave(), EventAction::CloseBroadcastOpenBlock);
    assert_eq!(s.waiting(), 0);
}

#[test]
fn broadcast_reaches_every_waiter() {
    let mut s = WaitState::new();
    s.register();
    s.register();
    s.register();
    assert_eq!(s.notify_all(), EventAction::CloseBlockOpenBroadcast);
    s.woken(Wake::Broadcast);
    assert_eq!(s.leave(), EventAction::Nothing);
    s.woken(Wake::Broadcast);
    assert_eq!(s.leave(), EventAction::Nothing);
    s.woken(Wake::Broadcast);
    assert_eq!(s.leave(), EventAction::CloseBroadcastOpenBlock);
    assert_eq!(s.waiting(), 0);
}

#[test]
fn reentrant_mutex_lifecycle() {
    let mut m = ReentrantMutex::uninitialized();
    assert_eq!(m.state(), MutexState::Uninitialized);
    m.init();
    assert_eq!(m.state(), MutexState::Initialized { depth: 0 });
    m.lock();
    m.lock();
    assert_eq!(m.state(), MutexState::Initialized { depth: 2 });
    m.unlock();
    m.unlock();
    assert_eq!(m.state(), MutexState::Initialized { depth: 0 });
    m.destroy();
    assert_eq!(m.state(), MutexState::Destroyed);
}

use rust9x_sys::condvar::{dur2timeout, fallback_state_to_free, INFINITE};

#[test]
fn fallback_state_to_free_by_kind() {
    assert_eq!(fallback_state_to_free(Kind::SRWLock, 0x5000), None);
    assert_eq!(fallback_state_to_free(Kind::CriticalSection, 0), None);
    assert_eq!(fallback_state_to_free(Kind::CriticalSection, 0x5000), Some(0x5000));
}

#[test]
fn dur2timeout_rounds_up_and_saturates() {
    assert_eq!(dur2timeout(0, 0), 0);
    assert_eq!(dur2timeout(0, 1), 1);
    assert_eq!(dur2timeout(0, 1_000_000), 1);
    assert_eq!(dur2timeout(0, 1_000_001), 2);
    assert_eq!(dur2timeout(1, 500_000_000), 1500);
    assert_eq!(dur2timeout(4_294_967, 294_000_000), 4_294_967_294);
    assert_eq!(dur2timeout(4_294_967, 295_000_000), INFINITE);
    assert_eq!(dur2timeout(4_294_967, 296_000_000), INFINITE);
    assert_eq!(dur2timeout(u64::MAX, 999_999_999), INFINITE);
}

#[test]
fn spurious_signal_is_allowed() {
    // A notify_one re-arms the signal between a wake and its record; the
    // state machine accepts the next waiter's wake on it.
    let mut s = WaitState::new();
    s.register();
    s.notify_one();
    s.notify_one();
    s.woken(Wake::Signal);
    s.leave();
    s.register();
    s.woken(Wake::Signal);
    assert_eq!(s.leave(), EventAction::CloseBroadcastOpenBlock);
}

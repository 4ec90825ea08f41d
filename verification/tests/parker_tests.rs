use rust9x_sys::c::STATUS_SUCCESS;
use rust9x_sys::windowsxp::{
    keyed_event_created, nt_relative_timeout, park_must_wait, park_timeout_must_wait_again,
    unpark_must_release, Parker, EMPTY, NOTIFIED, PARKED,
};

#[test]
fn state_codes() {
    assert_eq!(PARKED, -1);
    assert_eq!(EMPTY, 0);
    assert_eq!(NOTIFIED, 1);
}

#[test]
fn new_parker_is_empty() {
    assert_eq!(Parker::new().state(), EMPTY);
    let mut p = Parker::new();
    p.unpark();
    Parker::new_in_place(&mut p);
    assert_eq!(p.state(), EMPTY);
}

#[test]
fn decisions_on_previous_state() {
    assert!(!park_must_wait(NOTIFIED));
    assert!(park_must_wait(EMPTY));
    assert!(unpark_must_release(PARKED));
    assert!(!unpark_must_release(EMPTY));
    assert!(!unpark_must_release(NOTIFIED));
    assert!(park_timeout_must_wait_again(false, NOTIFIED));
    assert!(!park_timeout_must_wait_again(true, NOTIFIED));
    assert!(!park_timeout_must_wait_again(false, PARKED));
    assert!(!park_timeout_must_wait_again(false, EMPTY));
}

#[test]
fn unpark_then_park_returns_at_once() {
    let mut p = Parker::new();
    assert!(!p.unpark());
    assert_eq!(p.state(), NOTIFIED);
    assert!(!p.park());
    assert_eq!(p.state(), EMPTY);
}

#[test]
fn park_then_unpark_releases() {
    let mut p = Parker::new();
    assert!(p.park());
    assert_eq!(p.state(), PARKED);
    assert!(p.unpark());
    assert_eq!(p.state(), NOTIFIED);
    assert_eq!(p.park_wake(), NOTIFIED);
    assert_eq!(p.state(), EMPTY);
}

#[test]
fn unpark_twice_keeps_one_token() {
    let mut p = Parker::new();
    assert!(!p.unpark());
    assert!(!p.unpark());
    assert!(!p.park());
    assert!(p.park());
}

#[test]
fn timeout_with_missed_unpark_waits_again() {
    let mut p = Parker::new();
    assert!(p.park());
    assert!(p.unpark());
    assert!(p.park_timeout_wake(false));
    assert_eq!(p.state(), EMPTY);
}

#[test]
fn plain_timeout_does_not_wait_again() {
    let mut p = Parker::new();
    assert!(p.park());
    assert!(!p.park_timeout_wake(false));
    assert_eq!(p.state(), EMPTY);
}

#[test]
fn released_timed_park_does_not_wait_again() {
    let mut p = Parker::new();
    assert!(p.park());
    assert!(p.unpark());
    assert!(!p.park_timeout_wake(true));
    assert_eq!(p.state(), EMPTY);
}

#[test]
fn timeout_conversion() {
    assert_eq!(nt_relative_timeout(0, 0), 0);
    assert_eq!(nt_relative_timeout(0, 1), -1);
    assert_eq!(nt_relative_timeout(0, 100), -1);
    assert_eq!(nt_relative_timeout(0, 101), -2);
    assert_eq!(nt_relative_timeout(1, 0), -10_000_000);
    assert_eq!(nt_relative_timeout(2, 500_000_000), -25_000_000);
    assert_eq!(nt_relative_timeout(u64::MAX, 999_999_999), i64::MIN);
    // 922337203685 s is the last whole second whose 100 ns count fits.
    assert_eq!(nt_relative_timeout(922_337_203_685, 0), -9_223_372_036_850_000_000);
    assert_eq!(nt_relative_timeout(922_337_203_686, 0), i64::MIN);
}

#[test]
fn keyed_event_creation_status() {
    assert_eq!(keyed_event_created(STATUS_SUCCESS), Ok(()));
    assert_eq!(keyed_event_created(0xC000_009Au32 as i32), Err(0xC000_009Au32 as i32));
    assert_eq!(keyed_event_created(1), Err(1));
}

use vstd::prelude::*;
use crate::c::{NTSTATUS, STATUS_SUCCESS, INVALID_HANDLE_VALUE};

verus! {

/// The owner thread is blocked (or about to block) on the keyed event.
pub const PARKED: i8 = -1;

/// No token is available and nobody is parked.
pub const EMPTY: i8 = 0;

/// An `unpark` token is waiting to be consumed.
pub const NOTIFIED: i8 = 1;

/// The sentinel of the process-wide keyed event handle before it is created.
pub const KEYED_EVENT_UNSET: usize = INVALID_HANDLE_VALUE;

/// The states a parker can be in.
pub open spec fn valid_state(s: i8) -> bool {
    s == PARKED || s == EMPTY || s == NOTIFIED
}

/// The state after the first step of `park`: `fetch_sub(1)`, taking
/// `NOTIFIED` to `EMPTY` and `EMPTY` to `PARKED`.
pub open spec fn after_park(s: i8) -> i8 {
    (s - 1) as i8
}

/// Whether `park` must block after its first step, given the state it found.
pub open spec fn park_waits(s: i8) -> bool {
    s != NOTIFIED
}

/// The state after a parked thread wakes: `swap(EMPTY)`.
pub open spec fn after_wake(s: i8) -> i8 {
    EMPTY
}

/// Whether a timed park that woke with `unparked` must wait once more to
/// absorb the release of an `unpark` that it just missed, given the state its
/// `swap(EMPTY)` found.
pub open spec fn timed_wake_waits_again(unparked: bool, s: i8) -> bool {
    !unparked && s == NOTIFIED
}

/// The state after `unpark`: `swap(NOTIFIED)`.
pub open spec fn after_unpark(s: i8) -> i8 {
    NOTIFIED
}

/// Whether `unpark` must release the keyed event, given the state it found.
pub open spec fn unpark_releases(s: i8) -> bool {
    s == PARKED
}

/// Decision of `park` and `park_timeout` on the value their `fetch_sub(1)`
/// returned: block unless a token was available.
pub fn park_must_wait(prev: i8) -> (r: bool)
    ensures
        r == park_waits(prev),
{
    prev != NOTIFIED
}

/// Decision of `park_timeout` after waking, on whether the keyed event
/// released it and on the value its `swap(EMPTY)` returned: a timed-out
/// thread that finds a token just missed an `unpark`, which is now blocked
/// releasing the event, so it must wait for that release.
pub fn park_timeout_must_wait_again(unparked: bool, prev_state: i8) -> (r: bool)
    ensures
        r == timed_wake_waits_again(unparked, prev_state),
{
    !unparked && prev_state == NOTIFIED
}

/// Decision of `unpark` on the value its `swap(NOTIFIED)` returned: wake the
/// thread with the keyed event only if it was parked.
pub fn unpark_must_release(prev: i8) -> (r: bool)
    ensures
        r == unpark_releases(prev),
{
    prev == PARKED
}

/// The relative timeout of `NtWaitForKeyedEvent` for a wait of `nanos`
/// nanoseconds: the count of 100 ns units, rounded up and negated, or
/// `i64::MIN` where that count does not fit in an `i64`.
pub open spec fn relative_timeout(nanos: nat) -> int {
    let units = (nanos + 99) / 100;
    if units <= i64::MAX {
        -units
    } else {
        i64::MIN as int
    }
}

/// Converts a duration of `secs` seconds and `subsec_nanos` nanoseconds to the
/// relative timeout `park_timeout` hands to `NtWaitForKeyedEvent`.
pub fn nt_relative_timeout(secs: u64, subsec_nanos: u32) -> (r: i64)
    requires
        subsec_nanos < 1_000_000_000,
    ensures
        r == relative_timeout((secs as nat) * 1_000_000_000 + subsec_nanos as nat),
        r <= 0,
{
    let s: u128 = secs as u128;
    assert(s * 1_000_000_000 <= 18_446_744_073_709_551_615u128 * 1_000_000_000) by (nonlinear_arith)
        requires
            s <= 18_446_744_073_709_551_615u128,
    ;
    let nanos: u128 = s * 1_000_000_000 + subsec_nanos as u128;
    let units: u128 = (nanos + 99) / 100;
    if units <= 9_223_372_036_854_775_807u128 {
        -(units as i64)
    } else {
        i64::MIN
    }
}

/// The timeout is relative, never an absolute time: it is never positive. Its
/// magnitude is the least count of 100 ns units covering the wait, so the
/// wait is never cut short nor lengthened by a whole unit, and where that
/// count does not fit the longest relative wait (`i64::MIN`) is used; longer
/// waits never get shorter timeouts.
pub proof fn lemma_relative_timeout_covers_wait(nanos: nat, nanos2: nat)
    ensures
        relative_timeout(nanos) <= 0,
        relative_timeout(nanos) > i64::MIN ==> -relative_timeout(nanos) * 100 >= nanos,
        relative_timeout(nanos) > i64::MIN ==> (-relative_timeout(nanos) - 1) * 100 < nanos || nanos == 0,
        relative_timeout(nanos) == i64::MIN ==> nanos > (i64::MAX - 1) * 100,
        nanos == 0 ==> relative_timeout(nanos) == 0,
        nanos <= nanos2 ==> relative_timeout(nanos2) <= relative_timeout(nanos),
{
    let u = (nanos + 99) / 100;
    let u2 = (nanos2 + 99) / 100;
    assert(u * 100 <= nanos + 99 && nanos + 99 < u * 100 + 100);
    assert(u2 * 100 <= nanos2 + 99 && nanos2 + 99 < u2 * 100 + 100);
    if nanos <= nanos2 {
        assert(u <= u2);
    }
}

/// The outcome of `NtCreateKeyedEvent`: the handle may be used only if it
/// returned `STATUS_SUCCESS`; any other status is reported back.
pub fn keyed_event_created(status: NTSTATUS) -> (r: Result<(), NTSTATUS>)
    ensures
        r is Ok <==> status == STATUS_SUCCESS,
        r matches Err(e) ==> e == status,
{
    if status == STATUS_SUCCESS {
        Ok(())
    } else {
        Err(status)
    }
}

/// A thread parker on the keyed event of Windows XP and later. The state is
/// an atomic `i8` in the running program; each method here is one indivisible
/// step on it, followed by the decision taken on the value it returned.
pub struct Parker {
    state: i8,
}

impl View for Parker {
    type V = i8;

    closed spec fn view(&self) -> i8 {
        self.state
    }
}

impl Parker {
    /// A parker with no token.
    pub fn new() -> (r: Self)
        ensures
            r@ == EMPTY,
    {
        Parker { state: EMPTY }
    }

    /// Initialises the parker in place to the state without a token.
    pub fn new_in_place(parker: &mut Parker)
        ensures
            final(parker)@ == EMPTY,
    {
        parker.state = EMPTY;
    }

    /// The current state.
    pub fn state(&self) -> (r: i8)
        ensures
            r == self@,
    {
        self.state
    }

    /// First step of `park` and `park_timeout`, taken by the owner thread,
    /// which is not parked already: consumes a token (`NOTIFIED` to `EMPTY`)
    /// and returns `false`, or marks the thread parked (`EMPTY` to `PARKED`)
    /// and returns `true`, after which it blocks on the keyed event.
    pub fn park(&mut self) -> (wait: bool)
        requires
            valid_state(old(self)@),
            old(self)@ != PARKED,
        ensures
            final(self)@ == after_park(old(self)@),
            wait == park_waits(old(self)@),
            valid_state(final(self)@),
    {
        let prev = self.state;
        self.state = prev - 1;
        park_must_wait(prev)
    }

    /// Step of `park` after the keyed event released the thread: back to
    /// `EMPTY`; returns the state found.
    pub fn park_wake(&mut self) -> (prev: i8)
        ensures
            prev == old(self)@,
            final(self)@ == after_wake(old(self)@),
    {
        let prev = self.state;
        self.state = EMPTY;
        prev
    }

    /// Step of `park_timeout` after waking, `unparked` telling whether the
    /// keyed event released the thread (rather than the timeout): back to
    /// `EMPTY`; returns whether the thread must wait once more for the
    /// release of an `unpark` that it just missed.
    pub fn park_timeout_wake(&mut self, unparked: bool) -> (wait_again: bool)
        ensures
            final(self)@ == after_wake(old(self)@),
            wait_again == timed_wake_waits_again(unparked, old(self)@),
    {
        let prev = self.park_wake();
        park_timeout_must_wait_again(unparked, prev)
    }

    /// `unpark`: leaves a token (`NOTIFIED`) whatever the state was, and
    /// returns whether the owner thread was parked and must be released from
    /// the keyed event.
    pub fn unpark(&mut self) -> (release: bool)
        ensures
            final(self)@ == after_unpark(old(self)@),
            release == unpark_releases(old(self)@),
    {
        let prev = self.state;
        self.state = NOTIFIED;
        unpark_must_release(prev)
    }
}

/// Every step keeps the parker in one of its three states (the first step of
/// a park is only taken by the owner thread, which is then not parked).
pub proof fn lemma_steps_keep_state_valid(s: i8)
    requires
        valid_state(s),
    ensures
        s != PARKED ==> valid_state(after_park(s)),
        valid_state(after_wake(s)),
        valid_state(after_unpark(s)),
{
}

/// An `unpark` that comes first leaves a token, and the next `park` consumes
/// it and returns at once, leaving no token behind.
pub proof fn lemma_unpark_then_park_returns(s: i8)
    requires
        valid_state(s),
    ensures
        !park_waits(after_unpark(s)),
        after_park(after_unpark(s)) == EMPTY,
{
}

/// A `park` without a token blocks; the `unpark` that follows releases it,
/// and on waking the thread finds the token and leaves the parker empty.
pub proof fn lemma_park_then_unpark_releases(s: i8)
    requires
        s == EMPTY,
    ensures
        park_waits(s),
        after_park(s) == PARKED,
        unpark_releases(after_park(s)),
        after_unpark(after_park(s)) == NOTIFIED,
        after_wake(after_unpark(after_park(s))) == EMPTY,
{
}

/// A timed park that timed out waits once more exactly when an `unpark` slipped
/// in while it was parked; that `unpark` found the thread parked and is
/// releasing the keyed event, so every release is absorbed by one wait, and
/// the parker ends empty either way.
pub proof fn lemma_timeout_absorbs_missed_release(s: i8, unparked_meanwhile: bool)
    requires
        s == EMPTY,
    ensures
        ({
            let parked = after_park(s);
            let before_wake = if unparked_meanwhile { after_unpark(parked) } else { parked };
            let released = unparked_meanwhile && unpark_releases(parked);
            &&& timed_wake_waits_again(false, before_wake) == released
            &&& after_wake(before_wake) == EMPTY
        }),
{
}

/// A thread released by the keyed event always finds the token of the
/// `unpark` that released it, so it never needs to wait again.
pub proof fn lemma_released_wake_never_waits_again(s: i8)
    requires
        valid_state(s),
    ensures
        !timed_wake_waits_again(true, s),
        timed_wake_waits_again(false, s) <==> s == NOTIFIED,
{
}

} // verus!

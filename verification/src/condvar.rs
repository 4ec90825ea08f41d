use vstd::prelude::*;
use crate::c::ERROR_TIMEOUT;
use crate::lazy::{LazySlot, LazySlotView, loaded_value, published};

verus! {

/// Index of the auto-reset event that `notify_one` sets.
pub const SIGNAL: usize = 0;

/// Index of the manual-reset event that `notify_all` sets.
pub const BROADCAST: usize = 1;

/// Number of events a waiter blocks on.
pub const MAX_EVENTS: usize = 2;

/// Which implementation the condition variable uses.
#[derive(Clone, Copy, PartialEq, Eq, Debug)]
pub enum Kind {
    /// The native condition variable on slim reader/writer locks.
    SRWLock,
    /// The fallback on events and a critical section.
    CriticalSection,
}

/// The implementation in use: the native one where slim reader/writer locks
/// are available, the event-based fallback otherwise.
pub fn kind(srwlock_available: bool) -> (r: Kind)
    ensures
        r == (if srwlock_available { Kind::SRWLock } else { Kind::CriticalSection }),
{
    if srwlock_available {
        Kind::SRWLock
    } else {
        Kind::CriticalSection
    }
}

/// Result of a timed wait on the native condition variable, from what
/// `SleepConditionVariableSRW` returned: `false` (timed out) exactly when it
/// returned zero.
pub fn srw_wait_succeeded(ret: i32) -> (r: bool)
    ensures
        r == (ret != 0),
{
    ret != 0
}

/// Result of a timed wait on the fallback, from what
/// `WaitForMultipleObjects` returned: `false` exactly when it returned
/// `ERROR_TIMEOUT`; every other value, `WAIT_TIMEOUT` (258) among them,
/// counts as woken.
pub fn event_wait_succeeded(result: u32) -> (r: bool)
    ensures
        r == (result != ERROR_TIMEOUT),
{
    result != ERROR_TIMEOUT
}

/// What dropping a condition variable whose word reads `word` must free: the
/// fallback's state at that address, when the fallback is in use and the word
/// is not `0`; with the native condition variable, nothing.
pub fn fallback_state_to_free(kind: Kind, word: usize) -> (r: Option<usize>)
    ensures
        r == (if kind == Kind::CriticalSection { loaded_value(word, 0) } else { None }),
{
    match kind {
        Kind::SRWLock => None,
        Kind::CriticalSection => published(word, 0),
    }
}

/// The timeout in milliseconds of the Win32 wait functions for a wait of
/// `secs` seconds and `subsec_nanos` nanoseconds: whole milliseconds rounded
/// up, or `INFINITE` where they do not fit in a `u32` (or would reach it).
pub open spec fn timeout_millis(secs: nat, subsec_nanos: nat) -> nat {
    let ms = secs * 1000 + subsec_nanos / 1_000_000 + (if subsec_nanos % 1_000_000 > 0 { 1nat } else { 0nat });
    if ms > u32::MAX { u32::MAX as nat } else { ms }
}

/// `INFINITE`: no timeout.
pub const INFINITE: u32 = 0xffff_ffff;

/// Converts a duration to the timeout of the Win32 wait functions; see
/// [`timeout_millis`].
pub fn dur2timeout(secs: u64, subsec_nanos: u32) -> (r: u32)
    requires
        subsec_nanos < 1_000_000_000,
    ensures
        r == timeout_millis(secs as nat, subsec_nanos as nat),
        r as int * 1_000_000 >= secs as int * 1_000_000_000 + subsec_nanos || r == INFINITE,
{
    let round_up: u64 = if subsec_nanos % 1_000_000 > 0 { 1 } else { 0 };
    let ms = match secs.checked_mul(1000) {
        None => None,
        Some(ms) => match ms.checked_add((subsec_nanos / 1_000_000) as u64) {
            None => None,
            Some(ms) => ms.checked_add(round_up),
        },
    };
    match ms {
        Some(ms) => {
            if ms > 0xffff_ffffu64 {
                INFINITE
            } else {
                ms as u32
            }
        },
        None => INFINITE,
    }
}

/// A condition variable. Its word is the native condition variable while
/// slim reader/writer locks are in use; with the fallback it is `0` until the
/// address of the fallback's state is published in it, once.
pub struct Condvar {
    inner: LazySlot,
}

impl View for Condvar {
    type V = LazySlotView;

    closed spec fn view(&self) -> LazySlotView {
        self.inner@
    }
}

impl Condvar {
    /// A condition variable whose word is `0`: an initialised native
    /// condition variable, and no fallback state yet.
    pub fn new() -> (r: Condvar)
        ensures
            r@ == (LazySlotView { value: 0, unset: 0 }),
    {
        Condvar { inner: LazySlot::new(0) }
    }

    /// The fallback's state, if it has been published.
    pub fn published_inner(&self) -> (r: Option<usize>)
        ensures
            r == loaded_value(self@.value, self@.unset),
    {
        self.inner.get()
    }

    /// Publishes the address of freshly created fallback state `ours`; returns
    /// the address to use and whether `ours` lost the race to another thread
    /// and must be destroyed.
    pub fn publish_inner(&mut self, ours: usize) -> (r: (usize, bool))
        ensures
            final(self)@ == old(self)@.after_publish(ours),
            r.0 == old(self)@.published_value(ours),
            r.1 == old(self)@.discards(),
    {
        self.inner.publish(ours)
    }

    /// What dropping the condition variable must free: the fallback's state,
    /// when the fallback is in use and its state was published.
    pub fn state_to_free(&self, kind: Kind) -> (r: Option<usize>)
        ensures
            r == (if kind == Kind::CriticalSection { loaded_value(self@.value, self@.unset) } else { None }),
    {
        match kind {
            Kind::SRWLock => None,
            Kind::CriticalSection => self.inner.get(),
        }
    }
}

/// How a waiter's `WaitForMultipleObjects` on the two events returned.
#[derive(Clone, Copy, PartialEq, Eq, Debug)]
pub enum Wake {
    /// The auto-reset signal event fired (and was reset by the wait).
    Signal,
    /// The manual-reset broadcast event fired.
    Broadcast,
    /// Neither fired in time (or the wait failed).
    Timeout,
}

impl Wake {
    /// Classifies the return value of `WaitForMultipleObjects`: the index of
    /// the event that fired, anything else being no event.
    pub fn from_wait_result(result: u32) -> (r: Wake)
        ensures
            r == (if result == SIGNAL { Wake::Signal } else if result == BROADCAST {
                Wake::Broadcast
            } else {
                Wake::Timeout
            }),
    {
        if result == 0 {
            Wake::Signal
        } else if result == 1 {
            Wake::Broadcast
        } else {
            Wake::Timeout
        }
    }
}

/// What the caller must do to the events after a step of the fallback.
#[derive(Clone, Copy, PartialEq, Eq, Debug)]
pub enum EventAction {
    /// Nothing.
    Nothing,
    /// `SetEvent` on the signal event.
    SetSignal,
    /// `ResetEvent` on the block barrier, then `SetEvent` on the broadcast event.
    CloseBlockOpenBroadcast,
    /// `ResetEvent` on the broadcast event, then `SetEvent` on the block barrier.
    CloseBroadcastOpenBlock,
}

/// The fallback's shared state: the number of registered waiters, held under
/// its critical section, and the states of its three events (the signal and
/// broadcast events, and the block barrier that new waiters pass first).
#[derive(Clone, Copy)]
pub struct WaitState {
    waiting: u32,
    signal: bool,
    broadcast: bool,
    block_open: bool,
}

/// The fallback's state as plain values. `signal` is the signal event as the
/// steps recorded it: set by `notify_one`, cleared when a waiter records that
/// its wait returned on it. The event itself resets the moment a wait
/// returns, outside the critical section, so a `notify_one` that lands
/// between that moment and the waiter's record sets the event again while the
/// record then reads cleared; the next wait then returns at once on the event
/// (a spurious wake, which condition variables allow).
pub struct WaitView {
    pub waiting: nat,
    pub signal: bool,
    pub broadcast: bool,
    pub block_open: bool,
}

impl WaitView {
    /// The state after creation: no waiter, both events reset, barrier open.
    pub open spec fn initial() -> WaitView {
        WaitView { waiting: 0, signal: false, broadcast: false, block_open: true }
    }

    /// The invariant: a broadcast is in progress exactly while the barrier is
    /// closed, and only while some waiter has yet to leave.
    pub open spec fn inv(self) -> bool {
        &&& (self.broadcast <==> !self.block_open)
        &&& (self.broadcast ==> self.waiting > 0)
    }

    /// A waiter registers.
    pub open spec fn registered(self) -> WaitView {
        WaitView { waiting: self.waiting + 1, ..self }
    }

    /// Whether the recorded events let a wait return with `w`: an event fires
    /// when set, and when both are set the wait reports the signal event. (A
    /// signal re-armed after its reset, see [`WaitView`], can also fire while
    /// the record reads cleared.)
    pub open spec fn can_wake(self, w: Wake) -> bool {
        match w {
            Wake::Signal => self.signal,
            Wake::Broadcast => self.broadcast && !self.signal,
            Wake::Timeout => true,
        }
    }

    /// A waiter records that its wait returned with `w`: a return on the
    /// signal event means that event reset itself.
    pub open spec fn woken(self, w: Wake) -> WaitView {
        match w {
            Wake::Signal => WaitView { signal: false, ..self },
            _ => self,
        }
    }

    /// A waiter leaves; the last one to leave ends any broadcast and opens
    /// the barrier.
    pub open spec fn left(self) -> WaitView {
        let n = (self.waiting - 1) as nat;
        if n == 0 {
            WaitView { waiting: n, signal: self.signal, broadcast: false, block_open: true }
        } else {
            WaitView { waiting: n, ..self }
        }
    }

    /// What the leaving waiter does to the events.
    pub open spec fn leave_action(self) -> EventAction {
        if self.waiting == 1 {
            EventAction::CloseBroadcastOpenBlock
        } else {
            EventAction::Nothing
        }
    }

    /// `notify_one`: sets the signal event if anybody waits.
    pub open spec fn notified_one(self) -> WaitView {
        if self.waiting > 0 {
            WaitView { signal: true, ..self }
        } else {
            self
        }
    }

    /// What `notify_one` does to the events.
    pub open spec fn notify_one_action(self) -> EventAction {
        if self.waiting > 0 {
            EventAction::SetSignal
        } else {
            EventAction::Nothing
        }
    }

    /// `notify_all`: if anybody waits, closes the barrier and sets the broadcast
    /// event.
    pub open spec fn notified_all(self) -> WaitView {
        if self.waiting > 0 {
            WaitView { broadcast: true, block_open: false, ..self }
        } else {
            self
        }
    }

    /// What `notify_all` does to the events.
    pub open spec fn notify_all_action(self) -> EventAction {
        if self.waiting > 0 {
            EventAction::CloseBlockOpenBroadcast
        } else {
            EventAction::Nothing
        }
    }

    /// The state after `k` waiters left in turn.
    pub open spec fn left_times(self, k: nat) -> WaitView
        decreases k,
    {
        if k == 0 {
            self
        } else {
            self.left().left_times((k - 1) as nat)
        }
    }
}

impl View for WaitState {
    type V = WaitView;

    closed spec fn view(&self) -> WaitView {
        WaitView {
            waiting: self.waiting as nat,
            signal: self.signal,
            broadcast: self.broadcast,
            block_open: self.block_open,
        }
    }
}

impl WaitState {
    /// The state of freshly created fallback events.
    pub fn new() -> (r: Self)
        ensures
            r@ == WaitView::initial(),
            r@.inv(),
    {
        WaitState { waiting: 0, signal: false, broadcast: false, block_open: true }
    }

    /// The number of registered waiters.
    pub fn waiting(&self) -> (r: u32)
        ensures
            r == self@.waiting,
    {
        self.waiting
    }

    /// A waiter that passed the barrier registers itself.
    pub fn register(&mut self)
        requires
            old(self)@.waiting < u32::MAX,
        ensures
            final(self)@ == old(self)@.registered(),
            old(self)@.inv() ==> final(self)@.inv(),
    {
        self.waiting = self.waiting + 1;
    }

    /// A waiter records how its wait returned, whatever that was.
    pub fn woken(&mut self, w: Wake)
        ensures
            final(self)@ == old(self)@.woken(w),
            old(self)@.inv() ==> final(self)@.inv(),
    {
        match w {
            Wake::Signal => {
                self.signal = false;
            },
            _ => {},
        }
    }

    /// A registered waiter leaves; returns what it must do to the events.
    pub fn leave(&mut self) -> (r: EventAction)
        requires
            old(self)@.waiting > 0,
        ensures
            final(self)@ == old(self)@.left(),
            r == old(self)@.leave_action(),
            old(self)@.inv() ==> final(self)@.inv(),
    {
        self.waiting = self.waiting - 1;
        if self.waiting == 0 {
            self.broadcast = false;
            self.block_open = true;
            EventAction::CloseBroadcastOpenBlock
        } else {
            EventAction::Nothing
        }
    }

    /// `notify_one`; returns what it does to the events.
    pub fn notify_one(&mut self) -> (r: EventAction)
        ensures
            final(self)@ == old(self)@.notified_one(),
            r == old(self)@.notify_one_action(),
            old(self)@.waiting > 0 ==> r == EventAction::SetSignal && final(self)@.signal,
            old(self)@.waiting == 0 ==> r == EventAction::Nothing && final(self)@ == old(self)@,
            old(self)@.inv() ==> final(self)@.inv(),
    {
        if self.waiting > 0 {
            self.signal = true;
            EventAction::SetSignal
        } else {
            EventAction::Nothing
        }
    }

    /// `notify_all`; returns what it does to the events.
    pub fn notify_all(&mut self) -> (r: EventAction)
        ensures
            final(self)@ == old(self)@.notified_all(),
            r == old(self)@.notify_all_action(),
            old(self)@.waiting > 0 ==> r == EventAction::CloseBlockOpenBroadcast && final(self)@.broadcast
                && !final(self)@.block_open,
            old(self)@.waiting == 0 ==> r == EventAction::Nothing && final(self)@ == old(self)@,
            old(self)@.inv() ==> final(self)@.inv(),
    {
        if self.waiting > 0 {
            self.broadcast = true;
            self.block_open = false;
            EventAction::CloseBlockOpenBroadcast
        } else {
            EventAction::Nothing
        }
    }
}

/// Every step of the fallback keeps its invariant.
pub proof fn lemma_steps_keep_invariant(v: WaitView, w: Wake)
    requires
        v.inv(),
    ensures
        v.registered().inv(),
        v.woken(w).inv(),
        v.waiting > 0 ==> v.left().inv(),
        v.notified_one().inv(),
        v.notified_all().inv(),
{
}

/// A notification with nobody waiting is lost: it changes nothing and touches
/// no event.
pub proof fn lemma_notify_without_waiters_does_nothing(v: WaitView)
    requires
        v.waiting == 0,
    ensures
        v.notified_one() == v,
        v.notify_one_action() == EventAction::Nothing,
        v.notified_all() == v,
        v.notify_all_action() == EventAction::Nothing,
{
}

/// `notify_one` with a waiter arms the signal event, and the waiter whose wait
/// returns on it records it as consumed, so the same notification does not
/// release a second waiter; only a later `notify_one` (possibly one that
/// re-armed the event before that record, see [`WaitView`]) can.
pub proof fn lemma_signal_wakes_one(v: WaitView)
    requires
        v.waiting > 0,
    ensures
        v.notified_one().can_wake(Wake::Signal),
        !v.notified_one().woken(Wake::Signal).can_wake(Wake::Signal),
{
}

/// With a waiter registered, `notify_one` sets the signal event and records
/// it; with none, it touches no event. The event is set exactly when somebody
/// waits.
pub proof fn lemma_notify_one_wakes_when_waited_on(v: WaitView)
    ensures
        v.waiting > 0 ==> v.notify_one_action() == EventAction::SetSignal,
        v.waiting > 0 ==> v.notified_one().signal && v.notified_one().can_wake(Wake::Signal),
        v.notify_one_action() == EventAction::SetSignal <==> v.waiting > 0,
        v.notify_one_action() == EventAction::Nothing <==> v.waiting == 0,
        v.notified_one().waiting == v.waiting,
{
}

/// With a waiter registered, `notify_all` closes the barrier and opens the
/// broadcast event, and records both; with none, it touches no event. The
/// action taken always agrees with the recorded state.
pub proof fn lemma_notify_all_wakes_when_waited_on(v: WaitView)
    ensures
        v.waiting > 0 ==> v.notify_all_action() == EventAction::CloseBlockOpenBroadcast,
        v.notify_all_action() == EventAction::CloseBlockOpenBroadcast <==> v.waiting > 0,
        v.notify_all_action() == EventAction::Nothing <==> v.waiting == 0,
        v.notified_all().broadcast <==> (v.broadcast || v.waiting > 0),
        v.waiting > 0 ==> v.notified_all().broadcast && !v.notified_all().block_open,
        v.notified_all().waiting == v.waiting,
{
}

/// The wait timeout is the least whole number of milliseconds that covers the
/// duration, or `INFINITE` once that number reaches `u32::MAX`; so it never
/// cuts a wait short, never exceeds the duration by a whole millisecond, and
/// grows with the duration.
pub proof fn lemma_timeout_millis_covers_duration(secs: nat, subsec_nanos: nat, secs2: nat, subsec_nanos2: nat)
    requires
        subsec_nanos < 1_000_000_000,
        subsec_nanos2 < 1_000_000_000,
    ensures
        ({
            let nanos = secs * 1_000_000_000 + subsec_nanos;
            let r = timeout_millis(secs, subsec_nanos);
            &&& r <= u32::MAX
            &&& r < u32::MAX ==> r * 1_000_000 >= nanos
            &&& r < u32::MAX && r > 0 ==> (r - 1) * 1_000_000 < nanos
            &&& r == u32::MAX ==> nanos > (u32::MAX - 1) * 1_000_000
            &&& subsec_nanos == 0 && secs * 1000 <= u32::MAX ==> r == secs * 1000
        }),
        secs * 1_000_000_000 + subsec_nanos <= secs2 * 1_000_000_000 + subsec_nanos2 ==> timeout_millis(
            secs,
            subsec_nanos,
        ) <= timeout_millis(secs2, subsec_nanos2),
{
    let nanos = secs * 1_000_000_000 + subsec_nanos;
    let q = subsec_nanos / 1_000_000;
    let m = subsec_nanos % 1_000_000;
    assert(subsec_nanos == q * 1_000_000 + m);
    let ms = secs * 1000 + q + (if m > 0 { 1nat } else { 0nat });
    assert(ms * 1_000_000 == secs * 1_000_000_000 + q * 1_000_000 + (if m > 0 { 1_000_000nat } else { 0nat }));
    let q2 = subsec_nanos2 / 1_000_000;
    let m2 = subsec_nanos2 % 1_000_000;
    assert(subsec_nanos2 == q2 * 1_000_000 + m2);
    let ms2 = secs2 * 1000 + q2 + (if m2 > 0 { 1nat } else { 0nat });
    assert(ms2 * 1_000_000 == secs2 * 1_000_000_000 + q2 * 1_000_000 + (if m2 > 0 { 1_000_000nat } else { 0nat }));
    let nanos2 = secs2 * 1_000_000_000 + subsec_nanos2;
    if nanos <= nanos2 {
        // ms is the least count of milliseconds covering nanos, so it is
        // at most any count covering nanos2.
        assert(ms * 1_000_000 >= nanos);
        assert((ms - 1) * 1_000_000 < nanos || ms == 0) by (nonlinear_arith)
            requires
                ms * 1_000_000 == secs * 1_000_000_000 + q * 1_000_000 + (if m > 0 { 1_000_000nat } else { 0nat }),
                nanos == secs * 1_000_000_000 + q * 1_000_000 + m,
                m < 1_000_000,
        ;
        assert(ms <= ms2) by (nonlinear_arith)
            requires
                (ms - 1) * 1_000_000 < nanos || ms == 0,
                ms2 * 1_000_000 >= nanos2,
                nanos <= nanos2,
        ;
    }
    assert((ms - 1) * 1_000_000 < nanos || ms == 0) by (nonlinear_arith)
        requires
            ms * 1_000_000 == secs * 1_000_000_000 + q * 1_000_000 + (if m > 0 { 1_000_000nat } else { 0nat }),
            nanos == secs * 1_000_000_000 + q * 1_000_000 + m,
            m < 1_000_000,
    ;
    if timeout_millis(secs, subsec_nanos) == u32::MAX {
        assert(ms >= u32::MAX);
        assert(nanos > (u32::MAX - 1) * 1_000_000) by (nonlinear_arith)
            requires
                (ms - 1) * 1_000_000 < nanos || ms == 0,
                ms >= u32::MAX,
        ;
    }
}

proof fn lemma_broadcast_persists(u: WaitView, k: nat)
    requires
        u.inv(),
        u.broadcast,
        k < u.waiting,
    ensures
        u.left_times(k).broadcast,
        !u.left_times(k).block_open,
        u.left_times(k).waiting == u.waiting - k,
        u.left_times(k).inv(),
    decreases k,
{
    if k > 0 {
        lemma_broadcast_persists(u.left(), (k - 1) as nat);
    }
}

/// `notify_all` reaches every waiter registered when it ran: until the last
/// of them has left, the broadcast event stays set and the barrier stays closed
/// to newcomers.
pub proof fn lemma_broadcast_reaches_every_waiter(v: WaitView, k: nat)
    requires
        v.inv(),
        v.waiting > 0,
        k < v.waiting,
    ensures
        v.notified_all().left_times(k).broadcast,
        !v.notified_all().left_times(k).block_open,
        v.notified_all().left_times(k).waiting == v.waiting - k,
{
    lemma_broadcast_persists(v.notified_all(), k);
}

/// A broadcast ends with the last of its waiters: once all have left, the
/// broadcast event is reset and the barrier is open again.
pub proof fn lemma_broadcast_ends_with_last_waiter(v: WaitView)
    requires
        v.inv(),
        v.waiting > 0,
    ensures
        ({
            let after = v.notified_all().left_times(v.waiting);
            &&& after.waiting == 0
            &&& !after.broadcast
            &&& after.block_open
            &&& after.inv()
        }),
{
    let u = v.notified_all();
    let n = v.waiting;
    lemma_broadcast_persists(u, (n - 1) as nat);
    lemma_left_times_unfold(u, (n - 1) as nat);
}

proof fn lemma_left_times_unfold(u: WaitView, k: nat)
    ensures
        u.left_times(k + 1) == u.left_times(k).left(),
    decreases k,
{
    reveal_with_fuel(WaitView::left_times, 2);
    if k > 0 {
        lemma_left_times_unfold(u.left(), (k - 1) as nat);
    }
}

/// The state of the fallback's critical section.
#[derive(Clone, Copy, PartialEq, Eq, Debug)]
pub enum MutexState {
    /// Not yet initialised.
    Uninitialized,
    /// Initialised, and entered `depth` times without leaving.
    Initialized { depth: u32 },
    /// Deleted.
    Destroyed,
}

/// The state after entering the critical section.
pub open spec fn after_lock(s: MutexState) -> MutexState {
    match s {
        MutexState::Initialized { depth } => MutexState::Initialized { depth: (depth + 1) as u32 },
        _ => s,
    }
}

/// The state after leaving the critical section.
pub open spec fn after_unlock(s: MutexState) -> MutexState {
    match s {
        MutexState::Initialized { depth } => MutexState::Initialized { depth: (depth - 1) as u32 },
        _ => s,
    }
}

/// A reentrant mutex on a critical section. Its lifecycle: created
/// uninitialised, initialised once, entered and left in matching pairs,
/// deleted once it is free.
#[derive(Clone, Copy)]
pub struct ReentrantMutex {
    state: MutexState,
}

impl View for ReentrantMutex {
    type V = MutexState;

    closed spec fn view(&self) -> MutexState {
        self.state
    }
}

impl ReentrantMutex {
    /// A mutex whose critical section is not initialised yet.
    pub fn uninitialized() -> (r: ReentrantMutex)
        ensures
            r@ == MutexState::Uninitialized,
    {
        ReentrantMutex { state: MutexState::Uninitialized }
    }

    /// The state of the critical section.
    pub fn state(&self) -> (r: MutexState)
        ensures
            r == self@,
    {
        self.state
    }

    /// Initialises the critical section.
    pub fn init(&mut self)
        requires
            old(self)@ == MutexState::Uninitialized,
        ensures
            final(self)@ == (MutexState::Initialized { depth: 0 }),
    {
        self.state = MutexState::Initialized { depth: 0 };
    }

    /// Enters the critical section (again, if this thread holds it).
    pub fn lock(&mut self)
        requires
            old(self)@ matches MutexState::Initialized { depth } && depth < u32::MAX,
        ensures
            final(self)@ == after_lock(old(self)@),
    {
        match self.state {
            MutexState::Initialized { depth } => {
                self.state = MutexState::Initialized { depth: depth + 1 };
            },
            _ => {},
        }
    }

    /// Leaves the critical section once.
    pub fn unlock(&mut self)
        requires
            old(self)@ matches MutexState::Initialized { depth } && depth > 0,
        ensures
            final(self)@ == after_unlock(old(self)@),
    {
        match self.state {
            MutexState::Initialized { depth } => {
                self.state = MutexState::Initialized { depth: depth - 1 };
            },
            _ => {},
        }
    }

    /// Deletes the critical section, which nobody holds.
    pub fn destroy(&mut self)
        requires
            old(self)@ == (MutexState::Initialized { depth: 0 }),
        ensures
            final(self)@ == MutexState::Destroyed,
    {
        self.state = MutexState::Destroyed;
    }
}

/// Entering and leaving the critical section in matching pairs returns it to
/// the state it was in.
pub proof fn lemma_lock_unlock_round_trip(s: MutexState)
    requires
        s matches MutexState::Initialized { depth } && depth < u32::MAX,
    ensures
        after_lock(s) is Initialized,
        after_unlock(after_lock(s)) == s,
{
}

} // verus!

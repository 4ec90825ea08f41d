//! The choice between the keyed-event thread parker and the generic one,
//! made once per process and cached.
use vstd::prelude::*;

verus! {

/// The thread parker implementation in use.
#[derive(Clone, Copy, PartialEq, Eq, Debug)]
pub enum ThreadParkingImpl {
    /// Built on `NtCreateKeyedEvent`, Windows XP and later.
    KeyedEvent,
    /// The generic parker on a mutex and a condition variable.
    Generic,
}

/// The implementation to use: keyed events where all three keyed-event
/// functions are available, the generic parker otherwise.
pub open spec fn chosen_impl(create: bool, release: bool, wait: bool) -> ThreadParkingImpl {
    if create && release && wait {
        ThreadParkingImpl::KeyedEvent
    } else {
        ThreadParkingImpl::Generic
    }
}

/// The cache after a lookup: unchanged once filled, filled with the choice
/// otherwise.
pub open spec fn cached_after(
    cache: Option<ThreadParkingImpl>,
    create: bool,
    release: bool,
    wait: bool,
) -> Option<ThreadParkingImpl> {
    match cache {
        Some(i) => Some(i),
        None => Some(chosen_impl(create, release, wait)),
    }
}

/// The implementation in use, given the cache and the availability of
/// `NtCreateKeyedEvent`, `NtReleaseKeyedEvent` and `NtWaitForKeyedEvent`:
/// the cached choice if there is one (availability is then not consulted),
/// otherwise the choice made now, which is cached.
pub fn thread_parking_impl(
    cache: &mut Option<ThreadParkingImpl>,
    create_available: bool,
    release_available: bool,
    wait_available: bool,
) -> (r: ThreadParkingImpl)
    ensures
        *final(cache) == cached_after(*old(cache), create_available, release_available, wait_available),
        Some(r) == *final(cache),
        *old(cache) is None ==> (r == ThreadParkingImpl::KeyedEvent <==> create_available
            && release_available && wait_available),
{
    if let Some(implementation) = *cache {
        return implementation;
    }
    let implementation = if create_available && release_available && wait_available {
        ThreadParkingImpl::KeyedEvent
    } else {
        ThreadParkingImpl::Generic
    };
    *cache = Some(implementation);
    implementation
}

/// The keyed-event parker is chosen exactly when all three keyed-event
/// functions are available; missing any one of them gives the generic parker.
pub proof fn lemma_keyed_event_needs_all_three(create: bool, release: bool, wait: bool)
    ensures
        chosen_impl(create, release, wait) == ThreadParkingImpl::KeyedEvent <==> (create && release && wait),
        chosen_impl(create, release, wait) == ThreadParkingImpl::Generic <==> !(create && release && wait),
        cached_after(None, create, release, wait) == Some(chosen_impl(create, release, wait)),
{
}

/// The choice is made once: every later lookup returns the first one, whatever
/// availability it is shown.
pub proof fn lemma_choice_is_made_once(
    cache: Option<ThreadParkingImpl>,
    first: (bool, bool, bool),
    later: (bool, bool, bool),
)
    ensures
        ({
            let c1 = cached_after(cache, first.0, first.1, first.2);
            let c2 = cached_after(c1, later.0, later.1, later.2);
            &&& c2 == c1
            &&& cache is None ==> c1 == Some(chosen_impl(first.0, first.1, first.2))
        }),
{
}

} // verus!

use vstd::prelude::*;

verus! {

/// A word that starts out holding a sentinel `unset` and is set once, by the
/// first of possibly several racing initialisers: the condition variable's
/// fallback state and the process-wide keyed event handle are published this
/// way. The word itself is an atomic in the running program; here each method
/// is one indivisible step on it.
pub struct LazySlot {
    value: usize,
    unset: usize,
}

/// What a slot holds: its current word and its sentinel.
pub struct LazySlotView {
    pub value: usize,
    pub unset: usize,
}

impl LazySlotView {
    /// Whether a value has been published.
    pub open spec fn is_set(self) -> bool {
        self.value != self.unset
    }

    /// `compare_exchange(current, new)`: the slot after the step.
    pub open spec fn after_exchange(self, current: usize, new: usize) -> LazySlotView {
        if self.value == current {
            LazySlotView { value: new, unset: self.unset }
        } else {
            self
        }
    }

    /// `compare_exchange(current, new)`: what the step returns.
    pub open spec fn exchange_result(self, current: usize) -> Result<usize, usize> {
        if self.value == current {
            Ok(current)
        } else {
            Err(self.value)
        }
    }

    /// The slot after an initialiser tries to publish `ours`.
    pub open spec fn after_publish(self, ours: usize) -> LazySlotView {
        self.after_exchange(self.unset, ours)
    }

    /// The value an initialiser that tried to publish `ours` goes on with.
    pub open spec fn published_value(self, ours: usize) -> usize {
        settled_value(ours, self.exchange_result(self.unset))
    }

    /// Whether an initialiser that tries to publish must discard what it created.
    pub open spec fn discards(self) -> bool {
        settled_discard(self.exchange_result(self.unset))
    }
}

impl View for LazySlot {
    type V = LazySlotView;

    closed spec fn view(&self) -> LazySlotView {
        LazySlotView { value: self.value, unset: self.unset }
    }
}

/// The value that a load of the slot yields to its reader: `None` while the
/// slot holds the sentinel.
pub open spec fn loaded_value(loaded: usize, unset: usize) -> Option<usize> {
    if loaded == unset {
        None
    } else {
        Some(loaded)
    }
}

/// The value an initialiser goes on with after its `compare_exchange`.
pub open spec fn settled_value(ours: usize, exchange: Result<usize, usize>) -> usize {
    match exchange {
        Ok(_) => ours,
        Err(theirs) => theirs,
    }
}

/// Whether an initialiser must discard what it created.
pub open spec fn settled_discard(exchange: Result<usize, usize>) -> bool {
    exchange is Err
}

/// The fast path: a loaded word is a published value unless it is the
/// sentinel.
pub fn published(loaded: usize, unset: usize) -> (r: Option<usize>)
    ensures
        r == loaded_value(loaded, unset),
{
    if loaded == unset {
        None
    } else {
        Some(loaded)
    }
}

/// The slow path's end: after trying to publish `ours` with
/// `compare_exchange(unset, ours)`, use `ours` if the exchange succeeded;
/// otherwise another initialiser won the race, so use its value and discard
/// `ours` (the second component is `true` exactly then).
pub fn settle(ours: usize, exchange: Result<usize, usize>) -> (r: (usize, bool))
    ensures
        r.0 == settled_value(ours, exchange),
        r.1 == settled_discard(exchange),
{
    match exchange {
        Ok(_) => (ours, false),
        Err(theirs) => (theirs, true),
    }
}

impl LazySlot {
    /// A slot holding its sentinel.
    pub fn new(unset: usize) -> (r: Self)
        ensures
            r@ == (LazySlotView { value: unset, unset: unset }),
    {
        LazySlot { value: unset, unset }
    }

    /// The sentinel of the slot.
    pub fn unset(&self) -> (r: usize)
        ensures
            r == self@.unset,
    {
        self.unset
    }

    /// Reads the word.
    pub fn load(&self) -> (r: usize)
        ensures
            r == self@.value,
    {
        self.value
    }

    /// Replaces the word by `new` if it equals `current`; returns
    /// `Ok(current)` then, and `Err` of the word otherwise.
    pub fn compare_exchange(&mut self, current: usize, new: usize) -> (r: Result<usize, usize>)
        ensures
            r == old(self)@.exchange_result(current),
            final(self)@ == old(self)@.after_exchange(current, new),
    {
        if self.value == current {
            self.value = new;
            Ok(current)
        } else {
            Err(self.value)
        }
    }

    /// The published value, if any.
    pub fn get(&self) -> (r: Option<usize>)
        ensures
            r == loaded_value(self@.value, self@.unset),
    {
        published(self.value, self.unset)
    }

    /// Tries to publish `ours`; returns the value to use from now on and
    /// whether `ours` lost the race and must be discarded.
    pub fn publish(&mut self, ours: usize) -> (r: (usize, bool))
        ensures
            final(self)@ == old(self)@.after_publish(ours),
            r.0 == old(self)@.published_value(ours),
            r.1 == old(self)@.discards(),
    {
        let unset = self.unset;
        let exchange = self.compare_exchange(unset, ours);
        settle(ours, exchange)
    }
}

/// Publishing into an empty slot succeeds: the slot then holds `ours`, the
/// initialiser uses it and keeps it.
pub proof fn lemma_first_publish_wins(s: LazySlotView, ours: usize)
    requires
        !s.is_set(),
        ours != s.unset,
    ensures
        s.after_publish(ours).is_set(),
        s.after_publish(ours).value == ours,
        s.published_value(ours) == ours,
        !s.discards(),
{
}

/// Publishing into a slot that is already set changes nothing: the late
/// initialiser uses the published value and discards its own.
pub proof fn lemma_late_publish_loses(s: LazySlotView, ours: usize)
    requires
        s.is_set(),
    ensures
        s.after_publish(ours) == s,
        s.published_value(ours) == s.value,
        s.discards(),
{
}

/// Whatever order two racing initialisers publish in, both go on with one and
/// the same value, which is the one the slot holds afterwards, and exactly one
/// of them discards its own.
pub proof fn lemma_racing_publishers_agree(s: LazySlotView, a: usize, b: usize)
    requires
        !s.is_set(),
        a != s.unset,
    ensures
        ({
            let s1 = s.after_publish(a);
            let s2 = s1.after_publish(b);
            &&& s.published_value(a) == s1.published_value(b)
            &&& s2.value == s.published_value(a)
            &&& s2.is_set()
            &&& !s.discards()
            &&& s1.discards()
        }),
{
}

/// Once set, a slot reads the same value to every later reader, whatever
/// further initialisers try to publish.
pub proof fn lemma_published_value_is_stable(s: LazySlotView, ours: usize)
    requires
        s.is_set(),
    ensures
        loaded_value(s.after_publish(ours).value, s.unset) == Some(s.value),
{
}

} // verus!

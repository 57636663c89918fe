//! The admission controller: a counting resource with capacity C that
//! bounds how many builds may run concurrently against the shared working
//! directory. Slots are never double-issued, and a slot is held until its
//! build's subprocess has terminated — a caller-side timeout never
//! releases one early.

use vstd::prelude::*;

verus! {

/// The admission state: how many slots exist and how many are out.
pub struct Admission {
    /// The number of builds that may run at once (at least 1).
    pub capacity: u64,
    /// The number of slots currently issued.
    pub in_flight: u64,
}

impl Admission {
    /// The admission invariant: never more issued slots than capacity.
    pub open spec fn inv(&self) -> bool {
        &&& self.capacity >= 1
        &&& self.in_flight <= self.capacity
    }

    pub fn new(capacity: u64) -> (r: Admission)
        requires
            capacity >= 1,
        ensures
            r.inv(),
            r.capacity == capacity,
            r.in_flight == 0,
    {
        Admission { capacity, in_flight: 0 }
    }

    /// Issues a slot when one is free. Never blocks: the serving layer
    /// parks the caller and retries when a slot is returned.
    pub fn try_acquire(&mut self) -> (granted: bool)
        requires
            old(self).inv(),
        ensures
            final(self).inv(),
            final(self).capacity == old(self).capacity,
            granted <==> old(self).in_flight < old(self).capacity,
            granted ==> final(self).in_flight == old(self).in_flight + 1,
            !granted ==> *final(self) == *old(self),
    {
        if self.in_flight < self.capacity {
            self.in_flight = self.in_flight + 1;
            true
        } else {
            false
        }
    }

    /// Returns a slot. Called exactly once per issued slot, when the
    /// build's subprocess has terminated, on every exit path.
    pub fn release(&mut self)
        requires
            old(self).inv(),
            old(self).in_flight >= 1,
        ensures
            final(self).inv(),
            final(self).capacity == old(self).capacity,
            final(self).in_flight == old(self).in_flight - 1,
    {
        self.in_flight = self.in_flight - 1;
    }
}

/// One admission transition, as seen by the shared counter.
#[derive(Clone, Copy, PartialEq, Eq, Structural)]
pub enum SlotEvent {
    /// A build was admitted and its executor may start.
    Acquired,
    /// A build's subprocess terminated and its slot was returned.
    Released,
}

/// The number of slots out after a sequence of transitions.
pub open spec fn spec_slots_after(events: Seq<SlotEvent>) -> int
    decreases events.len(),
{
    if events.len() == 0 {
        0
    } else if events.last() == SlotEvent::Acquired {
        spec_slots_after(events.drop_last()) + 1
    } else {
        spec_slots_after(events.drop_last()) - 1
    }
}

/// A trace the controller can produce: a slot is issued only below
/// capacity, and only an issued slot is returned.
pub open spec fn spec_admissible(events: Seq<SlotEvent>, capacity: int) -> bool
    decreases events.len(),
{
    if events.len() == 0 {
        true
    } else {
        &&& spec_admissible(events.drop_last(), capacity)
        &&& (events.last() == SlotEvent::Acquired ==> spec_slots_after(events.drop_last())
            < capacity)
        &&& (events.last() == SlotEvent::Released ==> spec_slots_after(events.drop_last()) > 0)
    }
}

/// Every prefix of an admissible trace is admissible.
pub proof fn lemma_admissible_take(events: Seq<SlotEvent>, capacity: int, k: int)
    requires
        spec_admissible(events, capacity),
        0 <= k <= events.len(),
    ensures
        spec_admissible(events.take(k), capacity),
    decreases events.len(),
{
    if events.len() == 0 || k == events.len() {
        assert(events.take(k) =~= events);
    } else {
        assert(events.take(k) =~= events.drop_last().take(k));
        lemma_admissible_take(events.drop_last(), capacity, k);
    }
}

/// Admission invariant: for any burst of concurrent build calls against a
/// controller with capacity C, at no instant are more than C builds in
/// flight. The instants are the prefixes of the transition trace.
pub proof fn lemma_admission_bound(events: Seq<SlotEvent>, capacity: int, k: int)
    requires
        spec_admissible(events, capacity),
        capacity >= 0,
        0 <= k <= events.len(),
    ensures
        0 <= spec_slots_after(events.take(k)) <= capacity,
    decreases k,
{
    lemma_admissible_take(events, capacity, k);
    if k > 0 {
        lemma_admission_bound(events, capacity, k - 1);
        assert(events.take(k).drop_last() =~= events.take(k - 1));
    }
}

} // verus!

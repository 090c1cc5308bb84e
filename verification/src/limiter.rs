//! The admission limiter: the counting primitive that caps how many domain
//! checks may hold network resources at one instant. The process around the
//! core suspends a task until a slot frees; the model here is the slot
//! count itself, and its bound is the point of the component.

use vstd::prelude::*;

verus! {

/// A fixed-capacity admission limiter.
pub struct Limiter {
    capacity: usize,
    in_flight: usize,
}

impl Limiter {
    /// The number of slots the limiter was created with.
    pub closed spec fn capacity(&self) -> nat {
        self.capacity as nat
    }

    /// The number of slots currently held.
    pub closed spec fn in_flight(&self) -> nat {
        self.in_flight as nat
    }

    /// The limiter's invariant: the tasks holding a slot never exceed the
    /// capacity, at any point of a run.
    pub open spec fn wf(&self) -> bool {
        self.in_flight() <= self.capacity()
    }

    /// A limiter with the given capacity and every slot free.
    pub fn new(capacity: usize) -> (l: Limiter)
        ensures
            l.wf(),
            l.capacity() == capacity,
            l.in_flight() == 0,
    {
        Limiter { capacity, in_flight: 0 }
    }

    /// Grants a slot when one is free; a task that is refused holds no
    /// network resources and must ask again once a slot frees.
    pub fn try_acquire(&mut self) -> (granted: bool)
        requires
            old(self).wf(),
        ensures
            final(self).wf(),
            final(self).capacity() == old(self).capacity(),
            granted ==> old(self).in_flight() < old(self).capacity() && final(self).in_flight()
                == old(self).in_flight() + 1,
            !granted ==> old(self).in_flight() == old(self).capacity() && final(self).in_flight()
                == old(self).in_flight(),
    {
        if self.in_flight < self.capacity {
            self.in_flight = self.in_flight + 1;
            true
        } else {
            false
        }
    }

    /// Returns a held slot.
    pub fn release(&mut self)
        requires
            old(self).wf(),
            old(self).in_flight() > 0,
        ensures
            final(self).wf(),
            final(self).capacity() == old(self).capacity(),
            final(self).in_flight() == old(self).in_flight() - 1,
    {
        self.in_flight = self.in_flight - 1;
    }

    /// How many slots are currently held.
    pub fn held(&self) -> (n: usize)
        ensures
            n == self.in_flight(),
    {
        self.in_flight
    }
}

/// One scheduler event: a task asking for a slot, or a task returning one.
pub enum SlotEvent {
    Ask,
    Return,
}

/// The held count after one event: an ask is granted only below the cap,
/// and a return frees a held slot.
pub open spec fn held_after_event(cap: nat, held: nat, e: SlotEvent) -> nat {
    match e {
        SlotEvent::Ask => if held < cap {
            held + 1
        } else {
            held
        },
        SlotEvent::Return => if held > 0 {
            (held - 1) as nat
        } else {
            held
        },
    }
}

/// The held count after a sequence of events.
pub open spec fn held_after(cap: nat, held: nat, evs: Seq<SlotEvent>) -> nat
    decreases evs.len(),
{
    if evs.len() == 0 {
        held
    } else {
        held_after(cap, held_after_event(cap, held, evs.first()), evs.skip(1))
    }
}

/// At every point of a run — after any sequence of asks and returns from
/// any number of tasks — the tasks holding a slot never exceed the cap the
/// limiter was created with.
pub proof fn lemma_cap_never_exceeded(cap: nat, held: nat, evs: Seq<SlotEvent>)
    requires
        held <= cap,
    ensures
        held_after(cap, held, evs) <= cap,
    decreases evs.len(),
{
    if evs.len() > 0 {
        lemma_cap_never_exceeded(cap, held_after_event(cap, held, evs.first()), evs.skip(1));
    }
}

} // verus!

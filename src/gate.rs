//! A counting gate that bounds how many round trips are in flight.

use vstd::prelude::*;

verus! {

/// The number of permits a gate has unless told otherwise.
pub const DEFAULT_MAX_IN_FLIGHT: usize = 10;

/// A counting gate: at most `max_in_flight` permits are out at any time.
#[derive(Debug)]
pub struct ConcurrencyGate {
    max_in_flight: usize,
    in_flight: usize,
}

impl ConcurrencyGate {
    /// At least one permit, and never more permits out than there are.
    pub closed spec fn wf(&self) -> bool {
        0 < self.max_in_flight && self.in_flight <= self.max_in_flight
    }

    pub closed spec fn max_spec(&self) -> nat {
        self.max_in_flight as nat
    }

    pub closed spec fn in_flight_spec(&self) -> nat {
        self.in_flight as nat
    }

    /// A gate with `max_in_flight` permits, none of them out.
    pub fn new(max_in_flight: usize) -> (r: ConcurrencyGate)
        requires
            max_in_flight > 0,
        ensures
            r.wf(),
            r.max_spec() == max_in_flight,
            r.in_flight_spec() == 0,
    {
        ConcurrencyGate { max_in_flight, in_flight: 0 }
    }

    /// Hands out a permit if one is free; says whether it did.
    pub fn try_acquire(&mut self) -> (r: bool)
        requires
            old(self).wf(),
        ensures
            final(self).wf(),
            final(self).max_spec() == old(self).max_spec(),
            r == (old(self).in_flight_spec() < old(self).max_spec()),
            final(self).in_flight_spec() == old(self).in_flight_spec() + if r {
                1nat
            } else {
                0nat
            },
    {
        if self.in_flight < self.max_in_flight {
            self.in_flight = self.in_flight + 1;
            true
        } else {
            false
        }
    }

    /// Takes back a permit that was handed out.
    pub fn release(&mut self)
        requires
            old(self).wf(),
            old(self).in_flight_spec() > 0,
        ensures
            final(self).wf(),
            final(self).max_spec() == old(self).max_spec(),
            final(self).in_flight_spec() == old(self).in_flight_spec() - 1,
    {
        self.in_flight = self.in_flight - 1;
    }

    /// How many permits are out.
    pub fn in_flight(&self) -> (r: usize)
        ensures
            r == self.in_flight_spec(),
    {
        self.in_flight
    }

    /// How many permits there are in all.
    pub fn max_in_flight(&self) -> (r: usize)
        ensures
            r == self.max_spec(),
    {
        self.max_in_flight
    }
}

/// However permits are acquired and released, no more are out than there are.
pub proof fn lemma_gate_bounds_in_flight(g: &ConcurrencyGate)
    requires
        g.wf(),
    ensures
        g.in_flight_spec() <= g.max_spec(),
        g.max_spec() > 0,
{
}

} // verus!

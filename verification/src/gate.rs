//! The admission gate: the scan engine's backpressure primitive. A task
//! acquires a slot before it may attempt a connection and releases it when
//! it is done; the number of slots out at once never exceeds the budget.

use vstd::prelude::*;

verus! {

/// A counting admission gate with a fixed budget.
pub struct AdmissionGate {
    pub budget: usize,
    pub in_flight: usize,
}

impl AdmissionGate {
    /// No more connection attempts are in flight than the budget allows.
    pub open spec fn wf(&self) -> bool {
        self.in_flight <= self.budget
    }

    /// A fresh gate with nothing in flight.
    pub fn new(budget: usize) -> (g: AdmissionGate)
        ensures
            g.budget == budget,
            g.in_flight == 0,
            g.wf(),
    {
        AdmissionGate { budget, in_flight: 0 }
    }

    /// Takes one slot if any is free; a full gate refuses, and the count
    /// of taken slots stays within `budget` either way.
    pub fn try_acquire(&mut self) -> (ok: bool)
        requires
            old(self).wf(),
        ensures
            final(self).budget == old(self).budget,
            ok == (old(self).in_flight < old(self).budget),
            ok ==> final(self).in_flight == old(self).in_flight + 1,
            !ok ==> final(self).in_flight == old(self).in_flight,
            final(self).wf(),
    {
        if self.in_flight < self.budget {
            self.in_flight = self.in_flight + 1;
            true
        } else {
            false
        }
    }

    /// Returns one slot.
    pub fn release(&mut self)
        requires
            old(self).wf(),
            old(self).in_flight >= 1,
        ensures
            final(self).budget == old(self).budget,
            final(self).in_flight == old(self).in_flight - 1,
            final(self).wf(),
    {
        self.in_flight = self.in_flight - 1;
    }
}

/// The in-flight count after a history of gate events: `true` is an
/// admission attempt, granted exactly when a slot is free; `false` is a
/// release, a no-op on an idle gate.
pub open spec fn gate_in_flight(budget: nat, events: Seq<bool>) -> nat
    decreases events.len(),
{
    if events.len() == 0 {
        0
    } else {
        let prev = gate_in_flight(budget, events.drop_last());
        if events.last() {
            if prev < budget {
                prev + 1
            } else {
                prev
            }
        } else {
            if prev > 0 {
                (prev - 1) as nat
            } else {
                prev
            }
        }
    }
}

/// For every event sequence, `gate_in_flight(budget, events) <= budget`,
/// by induction over the sequence.
pub proof fn lemma_gate_bounded(budget: nat, events: Seq<bool>)
    ensures
        gate_in_flight(budget, events) <= budget,
    decreases events.len(),
{
    if events.len() > 0 {
        lemma_gate_bounded(budget, events.drop_last());
    }
}

} // verus!

//! A model of one core's interrupt gate and halt state, precise enough to
//! reason about the idle protocol's lost-wakeup race.
//!
//! The scheduler's idle path disables interrupts, re-checks for work, and
//! only then halts — with an operation that re-enables interrupts and
//! halts in one indivisible step, so an interrupt arriving at any point
//! after the re-check either defers until that step and is then taken,
//! ending the halt, or arrives later and ends it all the same. The model
//! keeps the two bits of state this argument needs and gives each
//! operation its exact effect.

use vstd::prelude::*;

verus! {

/// One core's interrupt-acceptance flag and halt state.
pub struct CoreControl {
    /// Whether the core accepts interrupts.
    pub interrupts_enabled: bool,
    /// Whether the core is halted, waiting for an interrupt.
    pub halted: bool,
}

impl CoreControl {
    /// A running core with interrupts accepted.
    pub fn new() -> (c: CoreControl)
        ensures
            c.interrupts_enabled,
            !c.halted,
    {
        CoreControl { interrupts_enabled: true, halted: false }
    }

    /// Stop accepting interrupts; pending ones stay pending.
    pub fn disable_interrupts(&mut self)
        requires
            !old(self).halted,
        ensures
            !final(self).interrupts_enabled,
            !final(self).halted,
    {
        self.interrupts_enabled = false;
    }

    /// Accept interrupts again.
    pub fn enable_interrupts(&mut self)
        requires
            !old(self).halted,
        ensures
            final(self).interrupts_enabled,
            !final(self).halted,
    {
        self.interrupts_enabled = true;
    }

    /// Re-enable interrupts and halt, indivisibly: no interrupt can slip
    /// into the gap between the two, so the core halts accepting
    /// interrupts and the very next one ends the halt.
    pub fn enable_and_hlt(&mut self)
        requires
            !old(self).halted,
        ensures
            final(self).interrupts_enabled,
            final(self).halted,
    {
        self.interrupts_enabled = true;
        self.halted = true;
    }

    /// An interrupt arrives at a core that accepts interrupts: if the core
    /// was halted, the halt ends — a halted core never outlasts the next
    /// interrupt.
    pub fn deliver_interrupt(&mut self)
        requires
            old(self).interrupts_enabled,
        ensures
            final(self).interrupts_enabled,
            !final(self).halted,
    {
        self.halted = false;
    }
}

} // verus!

//! The two interrupt vectors this substrate owns, and the tick bookkeeping
//! their handlers perform.
//!
//! The scheduling timer's handler increments the current core's tick
//! counter — it is that counter's only writer — and acknowledges the
//! interrupt. The scratch vector serves the calibration routine, which
//! routes the local timer's one-shot interrupt away from the scheduling
//! counter; its handler counts on a scratch cell of its own.

use crate::apic::{Lapic, RegOp};
use crate::cores::Cpu;
use vstd::prelude::*;

verus! {

/// Vector number of the first interrupt slot above the exception range.
pub const PIC_1_OFFSET: u8 = 32;

/// Vector number of the second legacy-controller slot.
pub const PIC_2_OFFSET: u8 = PIC_1_OFFSET + 8;

/// The interrupt vectors reserved for this substrate in the trap dispatch
/// table.
#[derive(Clone, Copy, Debug, PartialEq, Eq, Structural)]
pub enum InterruptIndex {
    /// The periodic scheduling tick.
    Timer,
    /// The one-shot calibration scratch vector.
    ScratchTimer,
}

impl InterruptIndex {
    /// The vector number: the scheduling tick sits on the first slot above
    /// the exceptions, the scratch vector right after it.
    pub fn as_u8(&self) -> (r: u8)
        ensures
            *self is Timer ==> r == 32,
            *self is ScratchTimer ==> r == 33,
    {
        match self {
            InterruptIndex::Timer => 32,
            InterruptIndex::ScratchTimer => 33,
        }
    }

    /// The vector number, widened for indexing a dispatch table.
    pub fn as_usize(&self) -> (r: usize)
        ensures
            *self is Timer ==> r == 32,
            *self is ScratchTimer ==> r == 33,
    {
        self.as_u8() as usize
    }
}

/// The scheduling-tick handler's bookkeeping: advance the current core's
/// tick counter by exactly one, wrapping at the top, and acknowledge the
/// interrupt with the returned end-of-interrupt write.
pub fn timer_interrupt(cpu: &mut Cpu, lapic: &Lapic) -> (eoi: RegOp)
    ensures
        final(cpu).timer == crate::time::tick_next(old(cpu).timer),
        final(cpu).executor == old(cpu).executor,
        final(cpu).worker == old(cpu).worker,
        final(cpu).local_handle == old(cpu).local_handle,
        eoi == (RegOp::Write { reg: 0xB0, value: 0 }),
{
    cpu.timer = crate::time::tick_increment(cpu.timer);
    lapic.end_of_interrupt()
}

/// The calibration scratch handler's bookkeeping: advance the scratch
/// counter, wrapping at the top, and acknowledge the interrupt.
pub fn scratch_timer_interrupt(scratch: &mut u64, lapic: &Lapic) -> (eoi: RegOp)
    ensures
        *final(scratch) == crate::time::tick_next(*old(scratch)),
        eoi == (RegOp::Write { reg: 0xB0, value: 0 }),
{
    *scratch = crate::time::tick_increment(*scratch);
    lapic.end_of_interrupt()
}

} // verus!

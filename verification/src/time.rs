//! The time base: wrapping tick counters, the one-time calibration that
//! reconciles the fixed-frequency legacy timer against the per-core local
//! timer, and the delay arithmetic built on the measured constant.
//!
//! Calibration runs with interrupts enabled and must not be re-entered: it
//! programs the legacy timer for one interrupt per period, arms the local
//! timer in one-shot mode on a scratch vector with its maximum count,
//! synchronises to a legacy edge, lets exactly one legacy period pass, and
//! reads how far the local timer counted down in it. The difference is the
//! calibration constant: local-timer ticks per legacy period. The protocol
//! is a state machine here; each step consumes one observation (a tick
//! sample, or the countdown register) and emits the exact hardware
//! operations to perform next, which a driver replays. The legacy period
//! must be much shorter than the local timer's full countdown, or the
//! second edge can pass unnoticed and corrupt the constant; that is a
//! configuration precondition, not a runtime check.

use crate::apic::{
    APIC_MASKED, APIC_TIMER_PERIODIC, LAPIC_LVT_TIMER_REG, LAPIC_TIMER_DIV_REG,
    LAPIC_TIMER_INITCNT_REG,
};
use crate::interrupts::InterruptIndex;
use vstd::prelude::*;

verus! {

/// Reload value programmed into the legacy timer: its 1193182 Hz input
/// clock divided down to one interrupt per 10 ms period.
pub const PIT_DIVIDER: u16 = 11932;

/// Length of one legacy-timer period in microseconds.
pub const PERIOD_MICROS: u64 = 10000;

/// The successor of a tick-counter value: one more, wrapping at the top.
pub open spec fn tick_next(t: u64) -> u64 {
    if t == u64::MAX {
        0
    } else {
        (t + 1) as u64
    }
}

/// Advance a tick counter by one, wrapping at the top.
pub fn tick_increment(t: u64) -> (r: u64)
    ensures
        r == tick_next(t),
{
    if t == u64::MAX {
        0
    } else {
        t + 1
    }
}

/// How many ticks lie from `saved` to `now` on a wrapping counter.
pub open spec fn spec_ticks_between(saved: u64, now: u64) -> u64 {
    if now >= saved {
        (now - saved) as u64
    } else {
        (u64::MAX - saved + now + 1) as u64
    }
}

/// The wrapping distance from `saved` to `now`.
pub fn ticks_between(saved: u64, now: u64) -> (r: u64)
    ensures
        r == spec_ticks_between(saved, now),
{
    if now >= saved {
        now - saved
    } else {
        u64::MAX - saved + now + 1
    }
}

/// Whether the counter has advanced past `saved`: at least one tick lies
/// between, which on a wrapping counter means the values differ.
pub fn edge_passed(saved: u64, now: u64) -> (r: bool)
    ensures
        r <==> spec_ticks_between(saved, now) >= 1,
        r <==> now != saved,
{
    ticks_between(saved, now) >= 1
}

/// Hardware operations the calibration protocol emits, for a driver to
/// replay in order.
#[derive(Clone, Copy, Debug, PartialEq, Eq, Structural)]
pub enum TimerOp {
    /// Write to the legacy timer's command port: channel 0, low-then-high
    /// access, rate-generator mode.
    PitCommand { value: u8 },
    /// Write one byte of the reload value to the legacy timer's data port.
    PitData { value: u8 },
    /// Write a local-APIC register.
    LapicWrite { reg: usize, value: u32 },
    /// Set the mask bit of the legacy timer's redirection entry.
    IoApicMask { reg: u32 },
    /// Enable interrupt delivery on this core.
    EnableInterrupts,
    /// Disable interrupt delivery on this core.
    DisableInterrupts,
    /// Read the local timer's live countdown register and feed it back as
    /// the next observation.
    ReadLapicCurrent,
    /// Publish the measured constant for the delay primitives.
    StoreConstant { value: u32 },
}

/// One observation fed into the calibration protocol.
#[derive(Clone, Copy, Debug, PartialEq, Eq, Structural)]
pub enum CalEvent {
    /// The current value of this core's tick counter.
    TickSample { count: u64 },
    /// The value read from the local timer's countdown register.
    CurrentCount { value: u32 },
}

/// Where the calibration protocol stands.
#[derive(Clone, Copy, Debug, PartialEq, Eq, Structural)]
pub enum CalPhase {
    /// Set up; waiting for the first tick sample to anchor on.
    SyncStart,
    /// Sampling until the counter moves past `saved`: the first legacy
    /// edge.
    WaitFirstEdge { saved: u64 },
    /// The local timer is counting down from its maximum; sampling until
    /// the counter moves past `edge`: the second legacy edge, exactly one
    /// period after the first.
    WaitSecondEdge { edge: u64 },
    /// The local timer is stopped; waiting for its countdown register.
    AwaitCount,
    /// Finished; `constant` local-timer ticks fit in one legacy period.
    Done { constant: u32 },
}

/// The calibration protocol: feed it observations, replay the operations
/// it returns.
pub struct Calibration {
    pub phase: CalPhase,
    /// Register index of the legacy timer's redirection entry, masked once
    /// the local timer takes over.
    pub pitreg: u32,
}

/// Set up calibration: program the legacy timer's divisor for the target
/// period, route the local timer one-shot to the scratch vector with the
/// divider it will also use in steady state, and enable interrupts. The
/// returned operations are exact and in order.
pub fn init(pitreg: u32) -> (r: (Calibration, Vec<TimerOp>))
    ensures
        r.0.phase is SyncStart,
        r.0.pitreg == pitreg,
        r.1@ == seq![
            (TimerOp::PitCommand { value: 0x34 }),
            (TimerOp::PitData { value: (PIT_DIVIDER % 256) as u8 }),
            (TimerOp::PitData { value: (PIT_DIVIDER / 256) as u8 }),
            (TimerOp::LapicWrite { reg: LAPIC_LVT_TIMER_REG, value: 33 }),
            (TimerOp::LapicWrite { reg: LAPIC_TIMER_DIV_REG, value: 3 }),
            TimerOp::EnableInterrupts,
        ],
{
    let divider: u16 = PIT_DIVIDER;
    let scratch = InterruptIndex::ScratchTimer.as_u8() as u32;
    let mut ops: Vec<TimerOp> = Vec::new();
    ops.push(TimerOp::PitCommand { value: 0x34 });
    ops.push(TimerOp::PitData { value: (divider % 256) as u8 });
    ops.push(TimerOp::PitData { value: (divider / 256) as u8 });
    ops.push(TimerOp::LapicWrite { reg: LAPIC_LVT_TIMER_REG, value: scratch });
    ops.push(TimerOp::LapicWrite { reg: LAPIC_TIMER_DIV_REG, value: 3 });
    ops.push(TimerOp::EnableInterrupts);
    proof {
        assert(ops@ =~= seq![
            (TimerOp::PitCommand { value: 0x34 }),
            (TimerOp::PitData { value: (PIT_DIVIDER % 256) as u8 }),
            (TimerOp::PitData { value: (PIT_DIVIDER / 256) as u8 }),
            (TimerOp::LapicWrite { reg: LAPIC_LVT_TIMER_REG, value: 33 }),
            (TimerOp::LapicWrite { reg: LAPIC_TIMER_DIV_REG, value: 3 }),
            TimerOp::EnableInterrupts,
        ]);
    }
    (Calibration { phase: CalPhase::SyncStart, pitreg }, ops)
}

impl Calibration {
    /// Feed one observation into the protocol and receive the operations
    /// to replay. Sampling anchors on the first sample, waits for the
    /// counter to move once — a legacy edge — and starts the local
    /// countdown from its maximum right there; one more edge later it
    /// stops the local timer and asks for the countdown register. The
    /// constant is the maximum count minus that reading. Finally the
    /// legacy entry is masked and the local timer is re-armed, periodic at
    /// the constant, on the scheduling vector, with the divider used
    /// during measurement. An observation that does not advance the
    /// protocol — a sample before the edge, or one of the wrong kind —
    /// changes nothing and emits nothing.
    pub fn step(&mut self, event: CalEvent) -> (ops: Vec<TimerOp>)
        ensures
            final(self).pitreg == old(self).pitreg,
            old(self).phase is SyncStart ==> (event matches CalEvent::TickSample { count }
                ==> final(self).phase == (CalPhase::WaitFirstEdge { saved: count }) && ops@.len()
                == 0),
            old(self).phase matches CalPhase::WaitFirstEdge { saved } ==> (event matches CalEvent::TickSample { count }
                ==> {
                &&& count == saved ==> final(self).phase == old(self).phase && ops@.len() == 0
                &&& count != saved ==> final(self).phase == (CalPhase::WaitSecondEdge {
                    edge: count,
                }) && ops@ == seq![
                    (TimerOp::LapicWrite { reg: LAPIC_TIMER_INITCNT_REG, value: 0xFFFFFFFFu32 }),
                ]
            }),
            old(self).phase matches CalPhase::WaitSecondEdge { edge } ==> (event matches CalEvent::TickSample { count }
                ==> {
                &&& count == edge ==> final(self).phase == old(self).phase && ops@.len() == 0
                &&& count != edge ==> final(self).phase is AwaitCount && ops@ == seq![
                    (TimerOp::LapicWrite { reg: LAPIC_LVT_TIMER_REG, value: APIC_MASKED }),
                    TimerOp::ReadLapicCurrent,
                ]
            }),
            old(self).phase is AwaitCount ==> (event matches CalEvent::CurrentCount { value }
                ==> {
                let constant = (0xFFFFFFFFu32 - value) as u32;
                &&& final(self).phase == (CalPhase::Done { constant })
                &&& ops@ == seq![
                    TimerOp::DisableInterrupts,
                    (TimerOp::StoreConstant { value: constant }),
                    (TimerOp::IoApicMask { reg: old(self).pitreg }),
                    (TimerOp::LapicWrite {
                        reg: LAPIC_LVT_TIMER_REG,
                        value: 32u32 | APIC_TIMER_PERIODIC,
                    }),
                    (TimerOp::LapicWrite { reg: LAPIC_TIMER_INITCNT_REG, value: constant }),
                    (TimerOp::LapicWrite { reg: LAPIC_TIMER_DIV_REG, value: 3 }),
                ]
            }),
            old(self).phase is SyncStart && event is CurrentCount ==> *final(self) == *old(self)
                && ops@.len() == 0,
            old(self).phase is WaitFirstEdge && event is CurrentCount ==> *final(self) == *old(
                self,
            ) && ops@.len() == 0,
            old(self).phase is WaitSecondEdge && event is CurrentCount ==> *final(self) == *old(
                self,
            ) && ops@.len() == 0,
            old(self).phase is AwaitCount && event is TickSample ==> *final(self) == *old(self)
                && ops@.len() == 0,
            old(self).phase is Done ==> *final(self) == *old(self) && ops@.len() == 0,
    {
        let mut ops: Vec<TimerOp> = Vec::new();
        match (self.phase, event) {
            (CalPhase::SyncStart, CalEvent::TickSample { count }) => {
                self.phase = CalPhase::WaitFirstEdge { saved: count };
            },
            (CalPhase::WaitFirstEdge { saved }, CalEvent::TickSample { count }) => {
                if edge_passed(saved, count) {
                    ops.push(
                        TimerOp::LapicWrite { reg: LAPIC_TIMER_INITCNT_REG, value: 0xFFFFFFFF },
                    );
                    self.phase = CalPhase::WaitSecondEdge { edge: count };
                    proof {
                        assert(ops@ =~= seq![
                            (TimerOp::LapicWrite {
                                reg: LAPIC_TIMER_INITCNT_REG,
                                value: 0xFFFFFFFFu32,
                            }),
                        ]);
                    }
                }
            },
            (CalPhase::WaitSecondEdge { edge }, CalEvent::TickSample { count }) => {
                if edge_passed(edge, count) {
                    ops.push(TimerOp::LapicWrite { reg: LAPIC_LVT_TIMER_REG, value: APIC_MASKED });
                    ops.push(TimerOp::ReadLapicCurrent);
                    self.phase = CalPhase::AwaitCount;
                    proof {
                        assert(ops@ =~= seq![
                            (TimerOp::LapicWrite { reg: LAPIC_LVT_TIMER_REG, value: APIC_MASKED }),
                            TimerOp::ReadLapicCurrent,
                        ]);
                    }
                }
            },
            (CalPhase::AwaitCount, CalEvent::CurrentCount { value }) => {
                let constant = ticks_per_period(value);
                let vector = InterruptIndex::Timer.as_u8() as u32;
                ops.push(TimerOp::DisableInterrupts);
                ops.push(TimerOp::StoreConstant { value: constant });
                ops.push(TimerOp::IoApicMask { reg: self.pitreg });
                ops.push(
                    TimerOp::LapicWrite {
                        reg: LAPIC_LVT_TIMER_REG,
                        value: vector | APIC_TIMER_PERIODIC,
                    },
                );
                ops.push(TimerOp::LapicWrite { reg: LAPIC_TIMER_INITCNT_REG, value: constant });
                ops.push(TimerOp::LapicWrite { reg: LAPIC_TIMER_DIV_REG, value: 3 });
                self.phase = CalPhase::Done { constant };
                proof {
                    assert(ops@ =~= seq![
                        TimerOp::DisableInterrupts,
                        (TimerOp::StoreConstant { value: (0xFFFFFFFFu32 - value) as u32 }),
                        (TimerOp::IoApicMask { reg: old(self).pitreg }),
                        (TimerOp::LapicWrite {
                            reg: LAPIC_LVT_TIMER_REG,
                            value: 32u32 | APIC_TIMER_PERIODIC,
                        }),
                        (TimerOp::LapicWrite {
                            reg: LAPIC_TIMER_INITCNT_REG,
                            value: (0xFFFFFFFFu32 - value) as u32,
                        }),
                        (TimerOp::LapicWrite { reg: LAPIC_TIMER_DIV_REG, value: 3 }),
                    ]);
                }
            },
            _ => {},
        }
        ops
    }

    /// The measured constant, once calibration is done.
    pub fn constant(&self) -> (r: Option<u32>)
        ensures
            match r {
                Some(c) => self.phase == (CalPhase::Done { constant: c }),
                None => !(self.phase is Done),
            },
    {
        match self.phase {
            CalPhase::Done { constant } => Some(constant),
            _ => None,
        }
    }
}

/// The calibration constant from one countdown reading: the local timer
/// started at the maximum count and reached `current_count` in exactly one
/// legacy period, so the difference is its ticks per period.
pub fn ticks_per_period(current_count: u32) -> (r: u32)
    ensures
        r == 0xFFFFFFFFu32 - current_count,
{
    0xFFFFFFFF - current_count
}

/// Local-timer ticks that span `micros` microseconds, given the measured
/// ticks per period.
pub open spec fn spec_delay_ticks(ticks_per_10ms: u64, micros: u64) -> int {
    ticks_per_10ms * micros / (PERIOD_MICROS as int)
}

/// The tick count for a microsecond delay: the measured constant scaled by
/// the requested fraction of a period.
pub fn delay_ticks(ticks_per_10ms: u32, micros: u64) -> (r: u64)
    requires
        (ticks_per_10ms as int) * (micros as int) <= u64::MAX,
    ensures
        r == spec_delay_ticks(ticks_per_10ms as u64, micros),
{
    (ticks_per_10ms as u64) * micros / PERIOD_MICROS
}

/// Law: the delay arithmetic is exact at the calibration points — a full
/// period's worth of microseconds maps to exactly the measured constant,
/// and zero microseconds to zero ticks.
pub proof fn lemma_delay_ticks_exact(t: u64)
    ensures
        spec_delay_ticks(t, PERIOD_MICROS) == t,
        spec_delay_ticks(t, 0) == 0,
{
    assert(t * 10000 / 10000 == t) by (nonlinear_arith);
    assert(t * 0 == 0) by (nonlinear_arith);
}

/// How far the local timer's countdown has travelled from `start` down to
/// `now`, on a register that decreases and wraps.
pub open spec fn spec_countdown_elapsed(start: u32, now: u32) -> u32 {
    if start >= now {
        (start - now) as u32
    } else {
        (u32::MAX - now + start + 1) as u32
    }
}

/// The countdown distance, in the opposite sense from the tick counter:
/// the register decreases, so elapsed ticks are start minus now, wrapping.
pub fn countdown_elapsed(start: u32, now: u32) -> (r: u32)
    ensures
        r == spec_countdown_elapsed(start, now),
{
    if start >= now {
        start - now
    } else {
        u32::MAX - now + start + 1
    }
}

/// Whether a microsecond delay begun at countdown value `start` is over
/// once the register shows `now`.
pub fn udelay_done(start: u32, now: u32, ticks: u64) -> (r: bool)
    ensures
        r <==> spec_countdown_elapsed(start, now) >= ticks,
{
    countdown_elapsed(start, now) as u64 >= ticks
}

/// How a requested delay is served: sub-millisecond delays busy-wait on
/// the countdown register; anything longer waits in whole legacy periods
/// on the tick counter, halting between checks, and hands the sub-period
/// remainder to the microsecond primitive, so no part of the request is
/// dropped.
#[derive(Clone, Copy, Debug, PartialEq, Eq, Structural)]
pub enum DelayPlan {
    /// Busy-wait on the countdown register for this many microseconds.
    Micro { micros: u64 },
    /// Wait out this many whole legacy periods on the tick counter, then
    /// busy-wait the sub-period remainder on the countdown register.
    Coarse { periods: u64, remainder_micros: u64 },
}

/// Decide how to serve a delay of `micros` microseconds: the whole
/// legacy periods it spans, plus the remainder for the microsecond
/// primitive; the two parts always add back up to the request.
pub fn delay(micros: u64) -> (p: DelayPlan)
    ensures
        micros < 1000 ==> p == (DelayPlan::Micro { micros }),
        micros >= 1000 ==> p == (DelayPlan::Coarse {
            periods: micros / PERIOD_MICROS,
            remainder_micros: micros % PERIOD_MICROS,
        }),
        micros >= 1000 ==> (micros / PERIOD_MICROS) * PERIOD_MICROS + micros % PERIOD_MICROS
            == micros,
        micros >= 1000 ==> micros % PERIOD_MICROS < PERIOD_MICROS,
{
    if micros < 1000 {
        DelayPlan::Micro { micros }
    } else {
        DelayPlan::Coarse {
            periods: micros / PERIOD_MICROS,
            remainder_micros: micros % PERIOD_MICROS,
        }
    }
}

} // verus!

use nacl::time::{
    countdown_elapsed, delay, delay_ticks, edge_passed, init, tick_increment, ticks_between,
    ticks_per_period, udelay_done, CalEvent, CalPhase, DelayPlan, TimerOp,
};

#[test]
fn tick_counter_wraps_at_the_top() {
    assert_eq!(tick_increment(0), 1);
    assert_eq!(tick_increment(41), 42);
    assert_eq!(tick_increment(u64::MAX), 0);
}

#[test]
fn ticks_between_handles_wraparound() {
    assert_eq!(ticks_between(5, 5), 0);
    assert_eq!(ticks_between(5, 8), 3);
    assert_eq!(ticks_between(u64::MAX, 0), 1);
    assert_eq!(ticks_between(u64::MAX - 1, 2), 4);
}

#[test]
fn edge_detection_is_inequality_on_a_wrapping_counter() {
    assert!(!edge_passed(9, 9));
    assert!(edge_passed(9, 10));
    assert!(edge_passed(u64::MAX, 0));
}

#[test]
fn calibration_constant_is_max_minus_current() {
    assert_eq!(ticks_per_period(0xFFFF_0000), 0xFFFF);
    assert_eq!(ticks_per_period(0), 0xFFFF_FFFF);
    assert_eq!(ticks_per_period(0xFFFF_FFFF), 0);
    let c = 0x1234_5678u32;
    assert_eq!(ticks_per_period(c), 0xFFFF_FFFF - c);
}

#[test]
fn delay_ticks_is_exact_at_the_calibration_points() {
    // One full period maps to exactly the measured constant.
    assert_eq!(delay_ticks(123_456, 10_000), 123_456);
    // Zero microseconds map to zero ticks.
    assert_eq!(delay_ticks(123_456, 0), 0);
    // A half period maps to half the constant.
    assert_eq!(delay_ticks(1000, 5_000), 500);
}

#[test]
fn calibration_setup_emits_exact_operations() {
    let (cal, ops) = init(0x14);
    assert_eq!(cal.phase, CalPhase::SyncStart);
    assert_eq!(cal.pitreg, 0x14);
    assert_eq!(
        ops,
        vec![
            TimerOp::PitCommand { value: 0x34 },
            TimerOp::PitData { value: 0x9C },
            TimerOp::PitData { value: 0x2E },
            TimerOp::LapicWrite { reg: 0x320, value: 33 },
            TimerOp::LapicWrite { reg: 0x3E0, value: 3 },
            TimerOp::EnableInterrupts,
        ]
    );
}

#[test]
fn calibration_protocol_walkthrough() {
    let (mut cal, _setup) = init(0x14);

    // First sample anchors the edge search.
    let ops = cal.step(CalEvent::TickSample { count: 5 });
    assert!(ops.is_empty());
    assert_eq!(cal.phase, CalPhase::WaitFirstEdge { saved: 5 });

    // No edge yet: nothing happens.
    let ops = cal.step(CalEvent::TickSample { count: 5 });
    assert!(ops.is_empty());
    assert_eq!(cal.phase, CalPhase::WaitFirstEdge { saved: 5 });

    // The first edge starts the countdown from the maximum.
    let ops = cal.step(CalEvent::TickSample { count: 6 });
    assert_eq!(ops, vec![TimerOp::LapicWrite { reg: 0x380, value: 0xFFFF_FFFF }]);
    assert_eq!(cal.phase, CalPhase::WaitSecondEdge { edge: 6 });

    // Still inside the period: nothing happens.
    let ops = cal.step(CalEvent::TickSample { count: 6 });
    assert!(ops.is_empty());

    // The second edge stops the local timer and asks for the countdown.
    let ops = cal.step(CalEvent::TickSample { count: 7 });
    assert_eq!(
        ops,
        vec![
            TimerOp::LapicWrite { reg: 0x320, value: 0x10000 },
            TimerOp::ReadLapicCurrent,
        ]
    );
    assert_eq!(cal.phase, CalPhase::AwaitCount);

    // The countdown reading yields the constant and the steady-state
    // programming: constant = max - current.
    let current = 0xFFFF_FFFF - 12_345;
    let ops = cal.step(CalEvent::CurrentCount { value: current });
    assert_eq!(
        ops,
        vec![
            TimerOp::DisableInterrupts,
            TimerOp::StoreConstant { value: 12_345 },
            TimerOp::IoApicMask { reg: 0x14 },
            TimerOp::LapicWrite { reg: 0x320, value: 32 | 0x20000 },
            TimerOp::LapicWrite { reg: 0x380, value: 12_345 },
            TimerOp::LapicWrite { reg: 0x3E0, value: 3 },
        ]
    );
    assert_eq!(cal.phase, CalPhase::Done { constant: 12_345 });
    assert_eq!(cal.constant(), Some(12_345));

    // A finished protocol ignores further observations.
    let ops = cal.step(CalEvent::TickSample { count: 8 });
    assert!(ops.is_empty());
    assert_eq!(cal.constant(), Some(12_345));
}

#[test]
fn calibration_ignores_mismatched_observations() {
    let (mut cal, _setup) = init(2);
    let ops = cal.step(CalEvent::CurrentCount { value: 7 });
    assert!(ops.is_empty());
    assert_eq!(cal.phase, CalPhase::SyncStart);
    assert_eq!(cal.constant(), None);
}

#[test]
fn countdown_runs_opposite_to_the_tick_counter() {
    assert_eq!(countdown_elapsed(100, 60), 40);
    assert_eq!(countdown_elapsed(60, 60), 0);
    // The register wraps below zero back to the top.
    assert_eq!(countdown_elapsed(2, 0xFFFF_FFFF), 3);
    assert!(udelay_done(100, 60, 40));
    assert!(!udelay_done(100, 61, 40));
}

#[test]
fn delay_dispatches_on_the_millisecond_boundary() {
    assert_eq!(delay(0), DelayPlan::Micro { micros: 0 });
    assert_eq!(delay(999), DelayPlan::Micro { micros: 999 });
    assert_eq!(delay(1000), DelayPlan::Coarse { periods: 0, remainder_micros: 1000 });
    assert_eq!(delay(25_000), DelayPlan::Coarse { periods: 2, remainder_micros: 5000 });
}

#[test]
fn coarse_delay_keeps_the_sub_period_remainder() {
    // Whole periods wait on the tick counter; the remainder goes to the
    // microsecond primitive; nothing of the request is dropped.
    match delay(10_500) {
        DelayPlan::Coarse { periods, remainder_micros } => {
            assert_eq!(periods, 1);
            assert_eq!(remainder_micros, 500);
            assert_eq!(periods * 10_000 + remainder_micros, 10_500);
        },
        DelayPlan::Micro { .. } => panic!("a ten-millisecond request is coarse"),
    }
    match delay(40_000) {
        DelayPlan::Coarse { periods, remainder_micros } => {
            assert_eq!(periods, 4);
            assert_eq!(remainder_micros, 0);
        },
        DelayPlan::Micro { .. } => panic!("a forty-millisecond request is coarse"),
    }
}

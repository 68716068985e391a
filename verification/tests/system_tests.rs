use nacl::apic::{Lapic, RegOp};
use nacl::cores::{id, Cpu, CpuKey, Registry, MAX_NUM_CPUS};
use nacl::gc::{is_pinned, pin};
use nacl::interrupts::{scratch_timer_interrupt, timer_interrupt};
use nacl::smp::DtPointer;

#[test]
fn key_scope_passes_the_core_number() {
    let num = CpuKey::scope(3, |key: &CpuKey| key.num());
    assert_eq!(num, 3);
}

#[test]
fn registry_creates_block_on_first_entry() {
    let mut registry = Registry::new(crossbeam_epoch::Collector::new());
    CpuKey::scope(1, |key: &CpuKey| {
        let cpu = registry.enter(key).unwrap();
        assert_eq!(cpu.timer, 0);
        assert_eq!(cpu.executor.task_count(), 0);
        assert!(cpu.worker.is_empty());
        registry.leave(key, cpu);
    });
}

#[test]
fn registry_refuses_reentrant_access() {
    let mut registry = Registry::new(crossbeam_epoch::Collector::new());
    CpuKey::scope(2, |key: &CpuKey| {
        let cpu = registry.enter(key).unwrap();
        // A second entry on the same core while the first is live is the
        // forbidden re-entrant access.
        assert!(registry.enter(key).is_none());
        registry.leave(key, cpu);
        // After leaving, the block is available again and keeps its state.
        let cpu = registry.enter(key).unwrap();
        registry.leave(key, cpu);
    });
}

#[test]
fn registry_refuses_core_ids_beyond_the_maximum() {
    let mut registry = Registry::new(crossbeam_epoch::Collector::new());
    CpuKey::scope(MAX_NUM_CPUS as u32, |key: &CpuKey| {
        assert!(registry.enter(key).is_none());
    });
}

#[test]
fn registry_publishes_stealers_on_creation() {
    let mut registry = Registry::new(crossbeam_epoch::Collector::new());
    assert!(registry.stealers().iter().all(|p| !p));
    CpuKey::scope(5, |key: &CpuKey| {
        let cpu = registry.enter(key).unwrap();
        registry.leave(key, cpu);
    });
    let stealers = registry.stealers();
    assert!(stealers[5]);
    assert_eq!(stealers.iter().filter(|p| **p).count(), 1);
}

#[test]
fn registry_keeps_per_core_state_across_entries() {
    let mut registry = Registry::new(crossbeam_epoch::Collector::new());
    CpuKey::scope(7, |key: &CpuKey| {
        let mut cpu = registry.enter(key).unwrap();
        cpu.worker.push(123);
        registry.leave(key, cpu);
        let mut cpu = registry.enter(key).unwrap();
        assert_eq!(cpu.worker.pop(), Some(123));
        registry.leave(key, cpu);
    });
}

#[test]
fn timer_tick_increments_and_acknowledges() {
    let collector = crossbeam_epoch::Collector::new();
    let mut cpu = Cpu::new(&collector);
    let lapic = Lapic { start: 0x1000 };
    let eoi = timer_interrupt(&mut cpu, &lapic);
    assert_eq!(cpu.timer, 1);
    assert_eq!(eoi, RegOp::Write { reg: 0xB0, value: 0 });
    let _ = timer_interrupt(&mut cpu, &lapic);
    assert_eq!(cpu.timer, 2);
}

#[test]
fn scratch_tick_counts_separately() {
    let lapic = Lapic { start: 0x1000 };
    let mut scratch: u64 = u64::MAX;
    let eoi = scratch_timer_interrupt(&mut scratch, &lapic);
    assert_eq!(scratch, 0);
    assert_eq!(eoi, RegOp::Write { reg: 0xB0, value: 0 });
}

#[test]
fn epoch_participant_pins_and_unpins() {
    let collector = crossbeam_epoch::Collector::new();
    let handle = collector.register();
    assert!(!is_pinned(&handle));
    let guard = pin(&handle);
    assert!(is_pinned(&handle));
    drop(guard);
    assert!(!is_pinned(&handle));
}

#[test]
fn core_identifier_is_readable() {
    // Every processor this test can run on exposes the feature leaf that
    // carries the initial local-APIC id.
    assert!(id().is_some());
}

#[test]
fn descriptor_table_pointer_layout() {
    let ptr = DtPointer { limit: 23, base: 0x8000 };
    assert_eq!(ptr.limit, 23);
    assert_eq!(ptr.base, 0x8000);
}

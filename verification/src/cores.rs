//! The per-processor state registry: one exclusively-held state block per
//! physical core, created on first access and never destroyed.
//!
//! A core's block holds its tick counter, executor, run queue and epoch
//! participant. Entering a slot takes the block out and marks the slot, so
//! a second entry on the same core — the forbidden re-entrant access — is
//! refused rather than aliased; leaving puts the block back. Creating a
//! block also publishes the core's presence in the stealer table, so peers
//! know whose queue they may steal from.

use crate::executor::Executor;
use crate::queue::WorkQueue;
use crossbeam_epoch::{Collector, LocalHandle};
use vstd::pervasive::VecAdditionalExecFns;
use vstd::prelude::*;

verus! {

/// Fixed upper bound on supported cores; a hardware id at or above it is a
/// fatal configuration error.
pub const MAX_NUM_CPUS: usize = 64;

/// One core's private state block.
pub struct Cpu {
    /// Monotonic wrapping tick counter, written only by this core's timer
    /// interrupt.
    pub timer: u64,
    /// This core's executor: task table and wake-handle cache.
    pub executor: Executor,
    /// This core's run queue of task ids.
    pub worker: WorkQueue,
    /// This core's participant handle in the epoch collector.
    pub local_handle: LocalHandle,
}

impl Cpu {
    /// A fresh state block: tick counter at zero, no tasks, empty queue,
    /// registered with the system's collector.
    pub fn new(collector: &Collector) -> (c: Cpu)
        ensures
            c.timer == 0,
            c.executor.wf(),
            c.executor.tasks() == Map::<u64, crate::task::Task>::empty(),
            c.executor.wakers() == Map::<u64, crate::executor::WakeHandle>::empty(),
            c.worker@ == Seq::<u64>::empty(),
    {
        Cpu {
            timer: 0,
            executor: Executor::new(),
            worker: WorkQueue::new(),
            local_handle: collector.register(),
        }
    }
}

/// A key witnessing execution on a particular core. It deliberately has no
/// `Clone` or `Copy`: one key per entry into core-local state.
#[derive(PartialEq, Eq, Structural)]
pub struct CpuKey {
    /// The hardware-derived number of this core.
    num: u32,
}

impl CpuKey {
    /// The core number the key stands for.
    pub closed spec fn num_spec(&self) -> u32 {
        self.num
    }

    /// The core number, for executable callers.
    pub fn num(&self) -> (n: u32)
        ensures
            n == self.num_spec(),
    {
        self.num
    }

    /// Run `callback` with a key for core `num`, scoping the key to the
    /// call: the callback borrows it and cannot keep it.
    pub fn scope<F, T>(num: u32, callback: F) -> (r: T) where F: FnOnce(&CpuKey) -> T
        requires
            forall|k: CpuKey| k.num_spec() == num ==> #[trigger] callback.requires((&k,)),
        ensures
            exists|k: CpuKey| k.num_spec() == num && #[trigger] callback.ensures((&k,), r),
    {
        let key = CpuKey { num };
        callback(&key)
    }
}

/// One registry slot: never yet used, holding its core's block, or entered
/// — the block is out with the core that entered.
pub enum Slot {
    Vacant,
    Ready(Cpu),
    Entered,
}

/// The process-wide registry of per-core state blocks, sized to the fixed
/// maximum core count, populated lazily on each core's first entry.
pub struct Registry {
    collector: Collector,
    slots: Vec<Slot>,
    published: Vec<bool>,
}

impl Registry {
    /// The slots, one per possible core.
    pub closed spec fn slots(&self) -> Seq<Slot> {
        self.slots@
    }

    /// Which cores have published a stealer: exactly those whose block was
    /// created.
    pub closed spec fn published(&self) -> Seq<bool> {
        self.published@
    }

    /// Both tables cover the fixed core range, and a core is published
    /// exactly when its slot is no longer vacant.
    pub open spec fn wf(&self) -> bool {
        &&& self.slots().len() == MAX_NUM_CPUS
        &&& self.published().len() == MAX_NUM_CPUS
        &&& forall|i: int|
            0 <= i < MAX_NUM_CPUS ==> (#[trigger] self.published()[i] <==> !(self.slots()[i]
                is Vacant))
    }

    /// An empty registry around the system's collector.
    pub fn new(collector: Collector) -> (r: Registry)
        ensures
            r.wf(),
            forall|i: int| 0 <= i < MAX_NUM_CPUS ==> (#[trigger] r.slots()[i]) is Vacant,
    {
        let mut slots: Vec<Slot> = Vec::new();
        let mut published: Vec<bool> = Vec::new();
        let mut i: usize = 0;
        while i < MAX_NUM_CPUS
            invariant
                i <= MAX_NUM_CPUS,
                slots@.len() == i,
                published@.len() == i,
                forall|j: int| 0 <= j < i ==> (#[trigger] slots@[j]) is Vacant,
                forall|j: int| 0 <= j < i ==> !(#[trigger] published@[j]),
            decreases MAX_NUM_CPUS - i,
        {
            slots.push(Slot::Vacant);
            published.push(false);
            i = i + 1;
        }
        Registry { collector, slots, published }
    }

    /// Enter core `key`'s slot: take its state block out, creating and
    /// publishing it on the first entry. Fails exactly when the core
    /// number is out of range — the registry has no block for it — or
    /// when the slot is already entered on this core, the re-entrant
    /// access that exclusive blocks forbid; both are fatal to the caller.
    pub fn enter(&mut self, key: &CpuKey) -> (r: Option<Cpu>)
        requires
            old(self).wf(),
        ensures
            final(self).wf(),
            key.num_spec() >= MAX_NUM_CPUS ==> r is None && *final(self) == *old(self),
            key.num_spec() < MAX_NUM_CPUS && old(self).slots()[key.num_spec() as int] is Entered
                ==> {
                &&& r is None
                &&& final(self).slots() == old(self).slots()
                &&& final(self).published() == old(self).published()
            },
            key.num_spec() < MAX_NUM_CPUS && !(old(self).slots()[key.num_spec() as int]
                is Entered) ==> {
                &&& r is Some
                &&& final(self).slots() == old(self).slots().update(
                    key.num_spec() as int,
                    Slot::Entered,
                )
                &&& final(self).published() == old(self).published().update(
                    key.num_spec() as int,
                    true,
                )
                &&& (old(self).slots()[key.num_spec() as int] matches Slot::Ready(cpu) ==> r
                    == Some(cpu))
                &&& (old(self).slots()[key.num_spec() as int] is Vacant ==> (r matches Some(cpu)
                    && cpu.timer == 0 && cpu.executor.wf() && cpu.worker@.len() == 0
                    && cpu.executor.tasks() == Map::<u64, crate::task::Task>::empty()
                    && cpu.executor.wakers() == Map::<u64, crate::executor::WakeHandle>::empty()))
            },
    {
        let num = key.num() as usize;
        if num >= MAX_NUM_CPUS {
            return None;
        }
        let mut slot = Slot::Entered;
        self.slots.set_and_swap(num, &mut slot);
        match slot {
            Slot::Entered => {
                proof {
                    assert(self.slots() =~= old(self).slots());
                }
                None
            },
            Slot::Ready(cpu) => {
                self.published.set(num, true);
                Some(cpu)
            },
            Slot::Vacant => {
                let cpu = Cpu::new(&self.collector);
                self.published.set(num, true);
                proof {
                    assert(cpu.executor.tasks().dom() =~= Set::<u64>::empty());
                }
                Some(cpu)
            },
        }
    }

    /// Leave core `key`'s slot: put the state block back, releasing the
    /// exclusive access that `enter` granted.
    pub fn leave(&mut self, key: &CpuKey, cpu: Cpu)
        requires
            old(self).wf(),
            key.num_spec() < MAX_NUM_CPUS,
            old(self).slots()[key.num_spec() as int] is Entered,
        ensures
            final(self).wf(),
            final(self).slots() == old(self).slots().update(
                key.num_spec() as int,
                Slot::Ready(cpu),
            ),
            final(self).published() == old(self).published(),
    {
        let num = key.num() as usize;
        self.slots.set(num, Slot::Ready(cpu));
    }

    /// The published stealer table: which cores have a queue that peers
    /// may steal from.
    pub fn stealers(&self) -> (r: Vec<bool>)
        ensures
            r@ == self.published(),
    {
        let mut r: Vec<bool> = Vec::new();
        let n = self.published.len();
        let mut i: usize = 0;
        while i < n
            invariant
                n == self.published().len(),
                i <= n,
                r@ == self.published().take(i as int),
            decreases n - i,
        {
            let b = self.published[i];
            r.push(b);
            proof {
                assert(self.published().take(i + 1) =~= self.published().take(i as int).push(
                    self.published()[i as int],
                ));
            }
            i = i + 1;
        }
        proof {
            assert(self.published().take(n as int) =~= self.published());
        }
        r
    }
}

/// Relies on raw_cpuid::CpuId::get_feature_info and
/// FeatureInfo::initial_local_apic_id: reads the executing core's initial
/// local-APIC id with the cpuid instruction. The id is immutable hardware
/// state, but which core executes the call is beyond the verifier, so
/// nothing is promised of the value; `None` reports a processor that does
/// not expose the feature leaf.
#[verifier::external_body]
pub fn id() -> (r: Option<u8>) {
    match raw_cpuid::CpuId::new().get_feature_info() {
        Some(info) => Some(info.initial_local_apic_id()),
        None => None,
    }
}

} // verus!

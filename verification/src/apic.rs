//! Interrupt-controller programming: the local APIC and I/O APIC register
//! model, and the verified plans for bringing both up.
//!
//! A running kernel pokes these registers through memory-mapped windows
//! that the hardware mutates underneath it, which the verifier cannot
//! observe. The functions here therefore compute exactly which register
//! operations to issue — writes, and read-modify-write updates for
//! registers whose other bits the hardware owns — and an unverified driver
//! replays them on the device. The contracts pin every emitted operation
//! down bit for bit.

use crate::interrupts::InterruptIndex;
use crate::mapper::Mapper;
use vstd::prelude::*;

verus! {

/// Bit 17 of a local-APIC timer vector-table entry: periodic mode.
pub const APIC_TIMER_PERIODIC: u32 = 0x20000;

/// Bit 16 of an APIC vector-table or redirection entry: masked.
pub const APIC_MASKED: u32 = 0x10000;

/// Local vector table entry for the local-APIC timer.
pub const LAPIC_LVT_TIMER_REG: usize = 0x320;

/// Local vector table entry for the LINT0 pin.
pub const LAPIC_LVT_LINT0_REG: usize = 0x350;

/// Local vector table entry for the LINT1 pin.
pub const LAPIC_LVT_LINT1_REG: usize = 0x360;

/// Initial count of the local-APIC timer; writing it starts the countdown.
pub const LAPIC_TIMER_INITCNT_REG: usize = 0x380;

/// Live countdown of the local-APIC timer, decremented by the hardware.
pub const LAPIC_TIMER_CURRCNT_REG: usize = 0x390;

/// Divide configuration of the local-APIC timer.
pub const LAPIC_TIMER_DIV_REG: usize = 0x3E0;

/// Index of the I/O APIC version register behind the selection window.
pub const IOAPICVER: u8 = 1;

/// One operation on a 32-bit device register: a plain write, or a
/// read-modify-write that keeps the bits in `keep` and ors in `set`,
/// for registers whose remaining bits the hardware owns.
#[derive(Clone, Copy, Debug, PartialEq, Eq, Structural)]
pub enum RegOp {
    Write { reg: u32, value: u32 },
    Update { reg: u32, keep: u32, set: u32 },
}

/// The local APIC of one core: its memory-mapped register window starts at
/// `start`. Copyable like the address it is, but mutation of the registers
/// behind it must stay coordinated with the owning core.
#[derive(Clone, Copy)]
pub struct Lapic {
    /// Virtual address of the start of the register window.
    pub start: usize,
}

impl Lapic {
    /// The virtual address of the register at `offset`.
    pub fn register_at(&self, offset: usize) -> (addr: usize)
        requires
            self.start + offset <= usize::MAX,
        ensures
            addr == self.start + offset,
    {
        self.start + offset
    }

    /// The operation acknowledging the in-service interrupt: a write of
    /// zero to the end-of-interrupt register.
    pub fn end_of_interrupt(&self) -> (op: RegOp)
        ensures
            op == (RegOp::Write { reg: 0xB0, value: 0 }),
    {
        RegOp::Write { reg: 0xB0, value: 0 }
    }

    /// Whether an interprocessor interrupt is still awaiting delivery,
    /// read from bit 12 of the command register's low word. The caller
    /// spins until this clears.
    pub fn icr_delivery_pending(icr_low: u32) -> (r: bool)
        ensures
            r <==> icr_low & 0x1000 != 0,
    {
        icr_low & 0x1000 != 0
    }
}

/// One I/O APIC: an indirect register window. The index of the wanted
/// register is written to the selection register at `start`, and the data
/// then appears 0x10 bytes above it.
#[derive(Clone, Copy)]
pub struct IoApic {
    /// Virtual address of the selection register.
    pub start: usize,
}

impl IoApic {
    /// The access pair for the register at `index`: the value to write to
    /// the selection register, and the virtual address of the data window.
    pub fn register_at(&self, index: u32) -> (r: (u32, usize))
        requires
            self.start + 0x10 <= usize::MAX,
        ensures
            r.0 == index,
            r.1 == self.start + 0x10,
    {
        (index, self.start + 0x10)
    }
}

/// One I/O APIC as platform discovery reports it, together with the value
/// its driver read from the version register.
pub struct IoApicInfo {
    /// Physical address of the selection register.
    pub address: usize,
    /// First global system interrupt this I/O APIC owns.
    pub gsi_base: u32,
    /// Raw value of the version register; bits 16 to 23 hold the highest
    /// redirection-entry index.
    pub version: u32,
}

/// One ISA interrupt override: the legacy IRQ line and the global system
/// interrupt it was rerouted to.
pub struct IsaOverride {
    pub isa_source: u8,
    pub gsi: u32,
}

/// Run state of an application processor at hand-off.
#[derive(Clone, Copy, Debug, PartialEq, Eq, Structural)]
pub enum ApState {
    /// Firmware disabled the processor; it must be left alone.
    Disabled,
    /// Already running; it must not be restarted.
    Running,
    /// Parked, waiting for the startup interprocessor interrupt.
    WaitingForSipi,
}

/// One application processor as platform discovery reports it.
pub struct ApInfo {
    /// Its local-APIC id, the destination field for interprocessor
    /// interrupts.
    pub apic_id: u32,
    pub state: ApState,
}

/// Platform topology, handed in by the discovery collaborator as plain
/// values: where the interrupt controllers sit, how legacy IRQs were
/// rerouted, and which processors exist.
pub struct PlatformInfo {
    /// Physical address of the boot core's local-APIC register window.
    pub local_apic_address: usize,
    pub io_apics: Vec<IoApicInfo>,
    pub overrides: Vec<IsaOverride>,
    /// Local-APIC id of the boot processor.
    pub bsp_apic_id: u32,
    pub aps: Vec<ApInfo>,
}

/// Hardware configurations this stage cannot proceed from.
#[derive(Clone, Copy, Debug, PartialEq, Eq, Structural)]
pub enum ConfigError {
    /// No override maps ISA IRQ 0, so the legacy timer cannot be routed.
    NoPitOverride,
    /// No discovered I/O APIC owns the legacy timer's global system
    /// interrupt.
    NoRoutedPitIrq,
}

/// The plan for the boot core's local APIC: enable interrupt acceptance by
/// setting bit 8 of the spurious-interrupt register, leaving its other
/// bits to the hardware, then mask the timer and both local pins until
/// calibration programs them.
pub fn init_lapic(info: &PlatformInfo, mapper: &Mapper) -> (r: (Lapic, Vec<RegOp>))
    requires
        mapper.physical_memory_offset + info.local_apic_address <= usize::MAX,
        mapper.physical_memory_offset + info.local_apic_address > 0,
    ensures
        r.0.start == mapper.physical_memory_offset + info.local_apic_address,
        r.1@ == seq![
            (RegOp::Update { reg: 0xF0, keep: 0xFFFFFFFFu32, set: 0x100 }),
            (RegOp::Write { reg: LAPIC_LVT_TIMER_REG as u32, value: APIC_MASKED }),
            (RegOp::Write { reg: LAPIC_LVT_LINT0_REG as u32, value: APIC_MASKED }),
            (RegOp::Write { reg: LAPIC_LVT_LINT1_REG as u32, value: APIC_MASKED }),
        ],
{
    let start = mapper.phys_to_virt_ptr(info.local_apic_address);
    let lapic = Lapic { start };
    let mut ops: Vec<RegOp> = Vec::new();
    ops.push(RegOp::Update { reg: 0xF0, keep: 0xFFFFFFFF, set: 0x100 });
    ops.push(RegOp::Write { reg: LAPIC_LVT_TIMER_REG as u32, value: APIC_MASKED });
    ops.push(RegOp::Write { reg: LAPIC_LVT_LINT0_REG as u32, value: APIC_MASKED });
    ops.push(RegOp::Write { reg: LAPIC_LVT_LINT1_REG as u32, value: APIC_MASKED });
    proof {
        assert(ops@ =~= seq![
            (RegOp::Update { reg: 0xF0, keep: 0xFFFFFFFFu32, set: 0x100 }),
            (RegOp::Write { reg: LAPIC_LVT_TIMER_REG as u32, value: APIC_MASKED }),
            (RegOp::Write { reg: LAPIC_LVT_LINT0_REG as u32, value: APIC_MASKED }),
            (RegOp::Write { reg: LAPIC_LVT_LINT1_REG as u32, value: APIC_MASKED }),
        ]);
    }
    (lapic, ops)
}

/// What one redirection entry receives: the legacy timer's entry is routed
/// to the scheduling vector with the boot processor as destination; every
/// other entry in range has its mask bit set.
#[derive(Clone, Copy, Debug, PartialEq, Eq, Structural)]
pub enum EntryOp {
    /// Write `vector` to the entry's low word (leaving flags and the mask
    /// bit clear) and `dest` to its high word.
    Route { reg: u32, vector: u32, dest: u32 },
    /// Set the mask bit of the entry's low word, keeping everything else.
    MaskEntry { reg: u32 },
}

/// The programming planned for one I/O APIC: one operation per
/// redirection entry it owns.
pub struct IoApicProgram {
    pub ioapic: IoApic,
    pub entries: Vec<EntryOp>,
}

/// The outcome of planning the I/O APICs: per-controller entry programs,
/// and where the legacy timer's entry ended up.
pub struct IoApicSetup {
    pub programs: Vec<IoApicProgram>,
    /// Index into `programs` of the controller owning the timer's entry.
    pub pit_apic: usize,
    /// Register index of that entry's low word.
    pub pitreg: u32,
}

/// Number of redirection entries a version-register value reports: bits
/// 16 to 23 hold the highest entry index.
pub open spec fn redir_count(version: u32) -> int {
    ((version >> 16) & 0xFF) + 1
}

/// Register index of the low word of redirection entry `idx`.
pub open spec fn entry_reg(idx: int) -> int {
    0x10 + 2 * idx
}

/// The entry operation planned for redirection entry `idx` of an I/O APIC
/// with the given base, when the legacy timer sits on `gsi`.
pub open spec fn planned_entry(gsi_base: u32, idx: int, gsi: u32, dest: u32) -> EntryOp {
    if gsi_base + idx == gsi {
        EntryOp::Route { reg: entry_reg(idx) as u32, vector: 32, dest }
    } else {
        EntryOp::MaskEntry { reg: entry_reg(idx) as u32 }
    }
}

/// The global system interrupt of the first override of ISA IRQ 0, which
/// the legacy timer drives.
pub fn find_pit_override(overrides: &Vec<IsaOverride>) -> (r: Option<u32>)
    ensures
        match r {
            Some(gsi) => exists|k: int|
                {
                    &&& 0 <= k < overrides@.len()
                    &&& overrides@[k].isa_source == 0
                    &&& forall|j: int| 0 <= j < k ==> overrides@[j].isa_source != 0
                    &&& gsi == overrides@[k].gsi
                },
            None => forall|j: int| 0 <= j < overrides@.len() ==> overrides@[j].isa_source != 0,
        },
{
    let n = overrides.len();
    let mut i: usize = 0;
    while i < n
        invariant
            n == overrides@.len(),
            i <= n,
            forall|j: int| 0 <= j < i ==> overrides@[j].isa_source != 0,
        decreases n - i,
    {
        if overrides[i].isa_source == 0 {
            return Some(overrides[i].gsi);
        }
        i = i + 1;
    }
    None
}

/// Plan the I/O APIC programming that routes the legacy timer to the
/// scheduling vector on the boot processor and masks every other
/// redirection entry. Fails exactly when no override maps ISA IRQ 0, or
/// when no discovered I/O APIC owns the resulting global system
/// interrupt; when several do, the last one keeps the route, as repeated
/// programming leaves the last write standing.
pub fn init_ioapic(info: &PlatformInfo, mapper: &Mapper) -> (r: Result<IoApicSetup, ConfigError>)
    requires
        info.bsp_apic_id <= 0xFF,
        forall|a: int|
            0 <= a < info.io_apics@.len() ==> #[trigger] info.io_apics@[a].gsi_base <= u32::MAX
                - 256,
        forall|a: int|
            0 <= a < info.io_apics@.len() ==> mapper.physical_memory_offset
                + #[trigger] info.io_apics@[a].address + 0x10 <= usize::MAX,
        forall|a: int|
            0 <= a < info.io_apics@.len() ==> mapper.physical_memory_offset
                + #[trigger] info.io_apics@[a].address > 0,
    ensures
        ({
            let pit = spec_pit_gsi(info.overrides@);
            match r {
                Err(e) => {
                    ||| (e == ConfigError::NoPitOverride && pit is None)
                    ||| (e == ConfigError::NoRoutedPitIrq && pit is Some && forall|a: int|
                        0 <= a < info.io_apics@.len() ==> !covers(
                            #[trigger] info.io_apics@[a],
                            pit.unwrap(),
                        ))
                },
                Ok(setup) => {
                    let gsi = pit.unwrap();
                    let dest = (info.bsp_apic_id as u32) << 24;
                    &&& pit is Some
                    &&& setup.programs@.len() == info.io_apics@.len()
                    &&& forall|a: int|
                        0 <= a < info.io_apics@.len()
                            ==> (#[trigger] setup.programs@[a]).ioapic.start
                            == mapper.physical_memory_offset + info.io_apics@[a].address
                    &&& forall|a: int|
                        0 <= a < info.io_apics@.len() ==> (#[trigger] setup.programs@[a]).entries@.len()
                            == redir_count(info.io_apics@[a].version)
                    &&& forall|a: int, e: int|
                        0 <= a < info.io_apics@.len() && 0 <= e < redir_count(
                            info.io_apics@[a].version,
                        ) ==> (#[trigger] setup.programs@[a].entries@[e]) == planned_entry(
                            info.io_apics@[a].gsi_base,
                            e,
                            gsi,
                            dest,
                        )
                    &&& 0 <= setup.pit_apic < info.io_apics@.len()
                    &&& covers(info.io_apics@[setup.pit_apic as int], gsi)
                    &&& forall|a: int|
                        setup.pit_apic < a < info.io_apics@.len() ==> !covers(
                            #[trigger] info.io_apics@[a],
                            gsi,
                        )
                    &&& setup.pitreg == entry_reg(gsi - info.io_apics@[setup.pit_apic as int].gsi_base)
                },
            }
        }),
{
    let gsi = match find_pit_override(&info.overrides) {
        Some(gsi) => gsi,
        None => {
            proof {
                lemma_first_pit_override(info.overrides@);
            }
            return Err(ConfigError::NoPitOverride);
        },
    };
    proof {
        lemma_first_pit_override(info.overrides@);
        assert(spec_pit_gsi(info.overrides@) == Some(gsi));
    }
    let vector = InterruptIndex::Timer.as_u8() as u32;
    let dest = info.bsp_apic_id << 24;
    let n = info.io_apics.len();
    let mut programs: Vec<IoApicProgram> = Vec::new();
    let mut found: Option<(usize, u32)> = None;
    let mut a: usize = 0;
    while a < n
        invariant
            n == info.io_apics@.len(),
            a <= n,
            programs@.len() == a,
            spec_pit_gsi(info.overrides@) == Some(gsi),
            vector == 32,
            dest == info.bsp_apic_id << 24,
            forall|x: int| 0 <= x < n ==> #[trigger] info.io_apics@[x].gsi_base <= u32::MAX - 256,
            forall|x: int|
                0 <= x < n ==> mapper.physical_memory_offset + #[trigger] info.io_apics@[x].address
                    + 0x10 <= usize::MAX,
            forall|x: int|
                0 <= x < n ==> mapper.physical_memory_offset + #[trigger] info.io_apics@[x].address
                    > 0,
            forall|x: int|
                0 <= x < a ==> (#[trigger] programs@[x]).ioapic.start
                    == mapper.physical_memory_offset + info.io_apics@[x].address,
            forall|x: int|
                0 <= x < a ==> (#[trigger] programs@[x]).entries@.len() == redir_count(
                    info.io_apics@[x].version,
                ),
            forall|x: int, e: int|
                0 <= x < a && 0 <= e < redir_count(info.io_apics@[x].version)
                    ==> (#[trigger] programs@[x].entries@[e]) == planned_entry(
                    info.io_apics@[x].gsi_base,
                    e,
                    gsi,
                    dest,
                ),
            match found {
                Some(f) => {
                    &&& 0 <= (f.0 as int) < a
                    &&& covers(info.io_apics@[f.0 as int], gsi)
                    &&& forall|x: int| f.0 < x < a ==> !covers(#[trigger] info.io_apics@[x], gsi)
                    &&& f.1 == entry_reg(gsi - info.io_apics@[f.0 as int].gsi_base)
                },
                None => forall|x: int| 0 <= x < a ==> !covers(#[trigger] info.io_apics@[x], gsi),
            },
        decreases n - a,
    {
        let base = info.io_apics[a].gsi_base;
        let version = info.io_apics[a].version;
        proof {
            assert((version >> 16) & 0xFF < 256) by (bit_vector);
        }
        let count = (((version >> 16) & 0xFF) + 1) as usize;
        let start = mapper.phys_to_virt_ptr(info.io_apics[a].address);
        let ioapic = IoApic { start };
        let ghost found_before = found;
        let mut entries: Vec<EntryOp> = Vec::new();
        let mut e: usize = 0;
        while e < count
            invariant
                a < n,
                n == info.io_apics@.len(),
                count == redir_count(version),
                count <= 256,
                base == info.io_apics@[a as int].gsi_base,
                version == info.io_apics@[a as int].version,
                base <= u32::MAX - 256,
                e <= count,
                entries@.len() == e,
                vector == 32,
                forall|k: int|
                    0 <= k < e ==> (#[trigger] entries@[k]) == planned_entry(base, k, gsi, dest),
                match found_before {
                    Some(f) => {
                        &&& 0 <= (f.0 as int) < a
                        &&& covers(info.io_apics@[f.0 as int], gsi)
                        &&& forall|x: int|
                            f.0 < x < a ==> !covers(#[trigger] info.io_apics@[x], gsi)
                        &&& f.1 == entry_reg(gsi - info.io_apics@[f.0 as int].gsi_base)
                    },
                    None => forall|x: int|
                        0 <= x < a ==> !covers(#[trigger] info.io_apics@[x], gsi),
                },
                if gsi < base || gsi >= base + e {
                    found == found_before
                } else {
                    found == Some((a, entry_reg(gsi - base) as u32))
                },
            decreases count - e,
        {
            let reg = (0x10 + 2 * e) as u32;
            if base + (e as u32) == gsi {
                entries.push(EntryOp::Route { reg, vector, dest });
                found = Some((a, reg));
            } else {
                entries.push(EntryOp::MaskEntry { reg });
            }
            e = e + 1;
        }
        programs.push(IoApicProgram { ioapic, entries });
        proof {
            if gsi < base || gsi >= base + count {
                assert(!covers(info.io_apics@[a as int], gsi));
            } else {
                assert(covers(info.io_apics@[a as int], gsi));
            }
        }
        a = a + 1;
    }
    match found {
        Some((pit_apic, pitreg)) => Ok(IoApicSetup { programs, pit_apic, pitreg }),
        None => Err(ConfigError::NoRoutedPitIrq),
    }
}

/// Whether an I/O APIC owns global system interrupt `gsi`.
pub open spec fn covers(apic: IoApicInfo, gsi: u32) -> bool {
    apic.gsi_base <= gsi < apic.gsi_base + redir_count(apic.version)
}

/// The first override of ISA IRQ 0, as a spec-level function of the
/// override table.
pub open spec fn spec_pit_gsi(overrides: Seq<IsaOverride>) -> Option<u32>
    decreases overrides.len(),
{
    if overrides.len() == 0 {
        None
    } else if overrides[0].isa_source == 0 {
        Some(overrides[0].gsi)
    } else {
        spec_pit_gsi(overrides.drop_first())
    }
}

/// The first-match characterisation of `spec_pit_gsi`: an element matching
/// at position `k`, with nothing matching before it, is the result; no
/// match anywhere means no result.
pub proof fn lemma_first_pit_override(overrides: Seq<IsaOverride>)
    ensures
        forall|k: int|
            0 <= k < overrides.len() && overrides[k].isa_source == 0 && (forall|j: int|
                0 <= j < k ==> overrides[j].isa_source != 0) ==> spec_pit_gsi(overrides) == Some(
                #[trigger] overrides[k].gsi,
            ),
        (forall|j: int| 0 <= j < overrides.len() ==> overrides[j].isa_source != 0) ==> spec_pit_gsi(
            overrides,
        ) is None,
    decreases overrides.len(),
{
    if overrides.len() > 0 {
        lemma_first_pit_override(overrides.drop_first());
        assert forall|k: int|
            0 <= k < overrides.len() && overrides[k].isa_source == 0 && (forall|j: int|
                0 <= j < k ==> overrides[j].isa_source != 0) implies spec_pit_gsi(overrides)
            == Some(overrides[k].gsi) by {
            if k > 0 {
                assert(overrides[0].isa_source != 0);
                assert(forall|j: int|
                    0 <= j < k - 1 ==> overrides.drop_first()[j] == overrides[j + 1]);
                assert(overrides.drop_first()[k - 1].isa_source == 0);
                assert(spec_pit_gsi(overrides.drop_first()) == Some(
                    overrides.drop_first()[k - 1].gsi,
                ));
            }
        }
    }
}

} // verus!

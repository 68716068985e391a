//! Multiprocessor bring-up: the Intel-defined INIT–SIPI handshake that
//! starts each parked application processor.
//!
//! For every discovered processor that is neither disabled nor already
//! running, the boot core sends an INIT interprocessor interrupt, waits
//! for delivery, sends the INIT level de-assert, waits again, then sends a
//! startup interrupt carrying the page number of the real-mode entry
//! trampoline, and waits once more. All command-register writes select the
//! target processor in the destination field first, and no two bring-up
//! sequences may run concurrently. What the started processor does next —
//! building its own state block and joining the stealer pool — is its own
//! side of the hand-off and is not observed here.

use crate::apic::{ApInfo, ApState, PlatformInfo, RegOp};
use vstd::prelude::*;

verus! {

/// A descriptor-table pointer in the 32-bit form the real-mode trampoline
/// loads before the started processor reaches long mode.
pub struct DtPointer {
    /// Size of the descriptor table in bytes, minus one.
    pub limit: u16,
    /// Physical address of the table, below 4 GiB.
    pub base: u32,
}

/// One step of the handshake: a command-register operation, or a spin on
/// the delivery-status bit until the interrupt is accepted.
#[derive(Clone, Copy, Debug, PartialEq, Eq, Structural)]
pub enum IpiStep {
    Op(RegOp),
    WaitDelivery,
}

/// Whether a processor takes part in bring-up: only one still parked,
/// waiting for its startup interrupt.
pub open spec fn eligible(ap: ApInfo) -> bool {
    ap.state is WaitingForSipi
}

/// The startup-interrupt command word: delivery mode 110 in bits 8 to 10,
/// and the trampoline's page number in the vector byte.
pub open spec fn spec_sipi_value(trampoline: u32) -> u32 {
    0x600u32 | trampoline >> 12
}

/// The exact step sequence that starts one processor: clear errors,
/// select it, assert INIT and wait; select it, de-assert INIT and wait;
/// clear errors, select it, send the startup interrupt and wait.
pub open spec fn ap_steps(apic_id: u32, trampoline: u32) -> Seq<IpiStep> {
    seq![
        IpiStep::Op(RegOp::Write { reg: 0x280, value: 0 }),
        IpiStep::Op(RegOp::Update { reg: 0x310, keep: 0x00FFFFFF, set: apic_id << 24 }),
        IpiStep::Op(RegOp::Update { reg: 0x300, keep: 0xFFF00000, set: 0x00C500 }),
        IpiStep::WaitDelivery,
        IpiStep::Op(RegOp::Update { reg: 0x310, keep: 0x00FFFFFF, set: apic_id << 24 }),
        IpiStep::Op(RegOp::Update { reg: 0x300, keep: 0xFFF00000, set: 0x008500 }),
        IpiStep::WaitDelivery,
        IpiStep::Op(RegOp::Write { reg: 0x280, value: 0 }),
        IpiStep::Op(RegOp::Update { reg: 0x310, keep: 0x00FFFFFF, set: apic_id << 24 }),
        IpiStep::Op(RegOp::Write { reg: 0x300, value: spec_sipi_value(trampoline) }),
        IpiStep::WaitDelivery,
    ]
}

/// Build the handshake steps for one processor. The trampoline must be a
/// page-aligned real-mode address: its page number is all the startup
/// interrupt can carry.
pub fn ap_bringup_steps(apic_id: u32, trampoline: u32) -> (steps: Vec<IpiStep>)
    requires
        apic_id <= 0xFF,
        trampoline % 0x1000 == 0,
        trampoline < 0x100000,
    ensures
        steps@ == ap_steps(apic_id, trampoline),
{
    let select = RegOp::Update { reg: 0x310, keep: 0x00FFFFFF, set: apic_id << 24 };
    let sipi = 0x600u32 | trampoline >> 12;
    let mut steps: Vec<IpiStep> = Vec::new();
    steps.push(IpiStep::Op(RegOp::Write { reg: 0x280, value: 0 }));
    steps.push(IpiStep::Op(select));
    steps.push(IpiStep::Op(RegOp::Update { reg: 0x300, keep: 0xFFF00000, set: 0x00C500 }));
    steps.push(IpiStep::WaitDelivery);
    steps.push(IpiStep::Op(select));
    steps.push(IpiStep::Op(RegOp::Update { reg: 0x300, keep: 0xFFF00000, set: 0x008500 }));
    steps.push(IpiStep::WaitDelivery);
    steps.push(IpiStep::Op(RegOp::Write { reg: 0x280, value: 0 }));
    steps.push(IpiStep::Op(select));
    steps.push(IpiStep::Op(RegOp::Write { reg: 0x300, value: sipi }));
    steps.push(IpiStep::WaitDelivery);
    proof {
        assert(steps@ =~= ap_steps(apic_id, trampoline));
    }
    steps
}

/// The bring-up plan for one discovered processor: its target id and the
/// steps to replay — none at all for a processor that is disabled or
/// already running.
pub struct ApBringup {
    pub apic_id: u32,
    pub steps: Vec<IpiStep>,
}

/// Plan the bring-up of every discovered application processor, in
/// discovery order: the full handshake for each parked processor, and an
/// empty step list for each disabled or running one, which is left alone.
pub fn init(info: &PlatformInfo, trampoline: u32) -> (plans: Vec<ApBringup>)
    requires
        forall|k: int| 0 <= k < info.aps@.len() ==> (#[trigger] info.aps@[k]).apic_id <= 0xFF,
        trampoline % 0x1000 == 0,
        trampoline < 0x100000,
    ensures
        plans@.len() == info.aps@.len(),
        forall|k: int|
            0 <= k < info.aps@.len() ==> (#[trigger] plans@[k]).apic_id == info.aps@[k].apic_id,
        forall|k: int|
            0 <= k < info.aps@.len() && eligible(info.aps@[k]) ==> (#[trigger] plans@[k]).steps@
                == ap_steps(info.aps@[k].apic_id, trampoline),
        forall|k: int|
            0 <= k < info.aps@.len() && !eligible(info.aps@[k])
                ==> (#[trigger] plans@[k]).steps@.len() == 0,
{
    let n = info.aps.len();
    let mut plans: Vec<ApBringup> = Vec::new();
    let mut k: usize = 0;
    while k < n
        invariant
            n == info.aps@.len(),
            k <= n,
            plans@.len() == k,
            trampoline % 0x1000 == 0,
            trampoline < 0x100000,
            forall|j: int| 0 <= j < n ==> (#[trigger] info.aps@[j]).apic_id <= 0xFF,
            forall|j: int|
                0 <= j < k ==> (#[trigger] plans@[j]).apic_id == info.aps@[j].apic_id,
            forall|j: int|
                0 <= j < k && eligible(info.aps@[j]) ==> (#[trigger] plans@[j]).steps@
                    == ap_steps(info.aps@[j].apic_id, trampoline),
            forall|j: int|
                0 <= j < k && !eligible(info.aps@[j])
                    ==> (#[trigger] plans@[j]).steps@.len() == 0,
        decreases n - k,
    {
        let apic_id = info.aps[k].apic_id;
        let steps = match info.aps[k].state {
            ApState::Disabled => Vec::new(),
            ApState::Running => Vec::new(),
            ApState::WaitingForSipi => ap_bringup_steps(apic_id, trampoline),
        };
        plans.push(ApBringup { apic_id, steps });
        k = k + 1;
    }
    plans
}

} // verus!

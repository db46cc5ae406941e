use vstd::prelude::*;

use crate::flow::HardwareHart;
use crate::pmp::{MiralisContext, CONFIDENTIAL_PMP_END_ENTRY, CONFIDENTIAL_PMP_START_ENTRY};
use crate::virt::VirtContext;

verus! {

/// Hands the general purpose registers of the virtual context to the hypervisor hart; its
/// CSRs, shared memory and PMP stay as they are.
pub fn overwrite_hardware_hart_with_virtctx(hw: &mut HardwareHart, ctx: &VirtContext)
    requires
        old(hw).wf(),
        ctx.wf(),
    ensures
        final(hw).wf(),
        final(hw).hart_id == old(hw).hart_id,
        final(hw).pmp == old(hw).pmp,
        final(hw).hypervisor_hart.csrs == old(hw).hypervisor_hart.csrs,
        final(hw).hypervisor_hart.shared_memory == old(hw).hypervisor_hart.shared_memory,
        forall|i: int| 0 <= i < 32 ==> #[trigger] final(hw).hypervisor_hart.gprs.regs@[i] == ctx.regs@[i] as usize,
{
    let mut i: usize = 0;
    while i < 32
        invariant
            i <= 32,
            ctx.wf(),
            hw.wf(),
            hw.hart_id == old(hw).hart_id,
            hw.pmp == old(hw).pmp,
            hw.hypervisor_hart.csrs == old(hw).hypervisor_hart.csrs,
            hw.hypervisor_hart.shared_memory == old(hw).hypervisor_hart.shared_memory,
            forall|j: int| 0 <= j < i ==> #[trigger] hw.hypervisor_hart.gprs.regs@[j] == ctx.regs@[j] as usize,
        decreases 32 - i,
    {
        hw.hypervisor_hart.gprs.write(i, ctx.regs[i] as usize);
        i = i + 1;
    }
}

/// Takes the general purpose registers back from the hypervisor hart, and records in the
/// monitor's PMP state the confidential entries as the hardware holds them (`pmpaddr4`,
/// `pmpaddr5`, `pmpcfg0`, read by the caller).
pub fn overwrite_virtctx_with_hardware_hart(
    ctx: &mut VirtContext,
    mctx: &mut MiralisContext,
    hw: &HardwareHart,
    pmpaddr4: usize,
    pmpaddr5: usize,
    pmpcfg0: u64,
)
    requires
        old(ctx).wf(),
        old(mctx).pmp.wf(),
        hw.wf(),
    ensures
        final(ctx).wf(),
        final(ctx).csr == old(ctx).csr,
        final(ctx).pc == old(ctx).pc,
        final(ctx).mode == old(ctx).mode,
        final(ctx).nb_exits == old(ctx).nb_exits,
        forall|i: int| 0 <= i < 32 ==> #[trigger] final(ctx).regs@[i] == hw.hypervisor_hart.gprs.regs@[i] as u64,
        final(mctx).hw == old(mctx).hw,
        final(mctx).pmp.wf(),
        final(mctx).pmp.nb_pmp == old(mctx).pmp.nb_pmp,
        final(mctx).pmp.pmpaddr@ == old(mctx).pmp.pmpaddr@.update(4, pmpaddr4).update(5, pmpaddr5),
        final(mctx).pmp.pmpcfg0 == pmpcfg0,
{
    let mut i: usize = 0;
    while i < 32
        invariant
            i <= 32,
            hw.wf(),
            ctx.wf(),
            ctx.csr == old(ctx).csr,
            ctx.pc == old(ctx).pc,
            ctx.mode == old(ctx).mode,
            ctx.nb_exits == old(ctx).nb_exits,
            forall|j: int| 0 <= j < i ==> #[trigger] ctx.regs@[j] == hw.hypervisor_hart.gprs.regs@[j] as u64,
        decreases 32 - i,
    {
        ctx.regs.set(i, hw.hypervisor_hart.gprs.read(i) as u64);
        i = i + 1;
    }
    mctx.pmp.pmpaddr.set(CONFIDENTIAL_PMP_START_ENTRY, pmpaddr4);
    mctx.pmp.pmpaddr.set(CONFIDENTIAL_PMP_END_ENTRY, pmpaddr5);
    mctx.pmp.pmpcfg0 = pmpcfg0;
}

} // verus!

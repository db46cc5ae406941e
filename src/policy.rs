use vstd::prelude::*;

use crate::pmp::MiralisContext;
use crate::virt::VirtContext;

verus! {

/// What a policy hook decided about an event.
#[derive(Clone, Copy, Debug, PartialEq, Eq, Structural)]
pub enum PolicyHookResult {
    /// The policy took care of the event; the monitor does nothing more.
    Overwrite,
    /// The monitor goes on with its default behaviour.
    Ignore,
}

/// A policy sees every `ecall` and every switch between firmware and payload, and may handle
/// an `ecall` itself or add isolation of its own. It may change the guest's state but not the
/// record of the trap or the count of exits, and it keeps the monitor's PMP state well formed.
pub trait PolicyModule {
    fn ecall_from_firmware(&mut self, mctx: &mut MiralisContext, ctx: &mut VirtContext) -> (r: PolicyHookResult)
        requires
            old(ctx).wf(),
            old(mctx).pmp.wf(),
        ensures
            final(ctx).wf(),
            final(mctx).pmp.wf(),
            final(mctx).pmp.nb_pmp == old(mctx).pmp.nb_pmp,
            final(ctx).nb_exits == old(ctx).nb_exits,
            final(ctx).trap_info == old(ctx).trap_info,
    ;

    fn ecall_from_payload(&mut self, mctx: &mut MiralisContext, ctx: &mut VirtContext) -> (r: PolicyHookResult)
        requires
            old(ctx).wf(),
            old(mctx).pmp.wf(),
        ensures
            final(ctx).wf(),
            final(mctx).pmp.wf(),
            final(mctx).pmp.nb_pmp == old(mctx).pmp.nb_pmp,
            final(ctx).nb_exits == old(ctx).nb_exits,
            final(ctx).trap_info == old(ctx).trap_info,
    ;

    fn switch_from_payload_to_firmware(&mut self, ctx: &mut VirtContext, mctx: &mut MiralisContext)
        requires
            old(ctx).wf(),
            old(mctx).pmp.wf(),
        ensures
            final(ctx).wf(),
            final(mctx).pmp.wf(),
            final(mctx).pmp.nb_pmp == old(mctx).pmp.nb_pmp,
            final(ctx).nb_exits == old(ctx).nb_exits,
            final(ctx).mode == old(ctx).mode,
    ;

    fn switch_from_firmware_to_payload(&mut self, ctx: &mut VirtContext, mctx: &mut MiralisContext)
        requires
            old(ctx).wf(),
            old(mctx).pmp.wf(),
        ensures
            final(ctx).wf(),
            final(mctx).pmp.wf(),
            final(mctx).pmp.nb_pmp == old(mctx).pmp.nb_pmp,
            final(ctx).nb_exits == old(ctx).nb_exits,
            final(ctx).mode == old(ctx).mode,
    ;
}

/// The policy that enforces nothing: every hook lets the monitor go on.
#[derive(Clone, Copy, Debug, PartialEq, Eq, Structural)]
pub struct DefaultPolicy {}

impl DefaultPolicy {
    pub fn init() -> (r: Self) {
        DefaultPolicy {}
    }
}

impl PolicyModule for DefaultPolicy {
    fn ecall_from_firmware(&mut self, mctx: &mut MiralisContext, ctx: &mut VirtContext) -> (r: PolicyHookResult) {
        PolicyHookResult::Ignore
    }

    fn ecall_from_payload(&mut self, mctx: &mut MiralisContext, ctx: &mut VirtContext) -> (r: PolicyHookResult) {
        PolicyHookResult::Ignore
    }

    fn switch_from_payload_to_firmware(&mut self, ctx: &mut VirtContext, mctx: &mut MiralisContext) {
    }

    fn switch_from_firmware_to_payload(&mut self, ctx: &mut VirtContext, mctx: &mut MiralisContext) {
    }
}

} // verus!

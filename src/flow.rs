use vstd::prelude::*;

use crate::control_data::{
    has_vm, ConfidentialHartRemoteCommand, ConfidentialVm, ControlDataStorage, ConfidentialVmId,
};
use crate::error::Error;
use crate::interrupt_controller::{Clint, InterruptController, IPI_NO_SUCH_HART};
use crate::hart::{
    ConfidentialHart, HartLifecycle, HypervisorHart, ResumableOperation, GPR_A0, GPR_A1, GPR_A6,
    GPR_A7, NACL_HTINST, NACL_HTVAL,
};
use crate::handlers::{
    instruction_skipped, mmio_load_completed, nacl_setup_applied, mmio_load_declassified, sbi_request_declassified,
    sbi_response_applied, sbi_response_declassified, trap_injected, MmioAccessFault,
    MmioLoadRequest, MmioLoadResponse, NaclSetupSharedMemory, SbiRequest, SbiResponse,
    VirtualInstruction,
};
use crate::memory_layout::MemoryLayout;
use crate::pmp::{
    close_access_to_confidential_memory, confidential_memory_closed, confidential_memory_open,
    open_access_to_confidential_memory, PmpGroup,
};

verus! {

/// A physical hart: the hypervisor state it runs and its PMP registers.
#[derive(Debug)]
pub struct HardwareHart {
    pub hart_id: usize,
    pub hypervisor_hart: HypervisorHart,
    pub pmp: PmpGroup,
}

impl HardwareHart {
    pub open spec fn wf(&self) -> bool {
        self.hypervisor_hart.wf() && self.pmp.wf()
    }
}

/// Changes made to the current confidential hart before it resumes.
pub enum ApplyToConfidentialHart {
    MmioAccessFault(MmioAccessFault),
    SbiResponse(SbiResponse),
    VirtualInstruction(VirtualInstruction),
}

impl ApplyToConfidentialHart {
    pub open spec fn applied(self, old: ConfidentialHart, new: ConfidentialHart) -> bool {
        match self {
            ApplyToConfidentialHart::MmioAccessFault(f) => trap_injected(old, new, f),
            ApplyToConfidentialHart::SbiResponse(r) => sbi_response_applied(old, new, r.a0, r.a1),
            ApplyToConfidentialHart::VirtualInstruction(v) => instruction_skipped(
                old,
                new,
                v.instruction_length,
            ),
        }
    }
}

/// Changes made to the hypervisor hart, on its own request, before it resumes.
pub enum ApplyToHypervisorHart {
    SbiResponse(SbiResponse),
    SetSharedMemory(NaclSetupSharedMemory),
}

/// State declassified from the confidential hart to the hypervisor hart.
pub enum DeclassifyToHypervisor {
    MmioLoadRequest(MmioLoadRequest),
    SbiRequest(SbiRequest),
    SbiResponse(SbiResponse),
}

impl DeclassifyToHypervisor {
    /// Exactly the fields that the variant names reach the hypervisor hart.
    pub open spec fn declassified(self, old: HypervisorHart, new: HypervisorHart) -> bool {
        match self {
            DeclassifyToHypervisor::MmioLoadRequest(m) => mmio_load_declassified(old, new, m),
            DeclassifyToHypervisor::SbiRequest(r) => sbi_request_declassified(old, new, r),
            DeclassifyToHypervisor::SbiResponse(r) => sbi_response_declassified(old, new, r.a0, r.a1),
        }
    }
}

impl DeclassifyToHypervisor {
    /// The general purpose registers of the hypervisor hart that the variant writes.
    pub open spec fn written_registers(self) -> Set<int> {
        match self {
            DeclassifyToHypervisor::SbiRequest(_) => set![
                GPR_A0 as int,
                GPR_A1 as int,
                GPR_A6 as int,
                GPR_A7 as int,
            ],
            _ => set![GPR_A0 as int, GPR_A1 as int],
        }
    }

    /// The NACL shared-memory slots that the variant writes.
    pub open spec fn written_slots(self) -> Set<int> {
        match self {
            DeclassifyToHypervisor::MmioLoadRequest(_) => set![NACL_HTVAL as int, NACL_HTINST as int],
            _ => Set::empty(),
        }
    }
}

/// Declassification minimality: whatever the variant, a declassification to the hypervisor
/// leaves every general purpose register and every NACL slot that the variant does not name as
/// it was, and changes no CSR but `scause` and `stval` of an MMIO request and `mepc`.
pub proof fn lemma_declassification_is_minimal(
    transformation: DeclassifyToHypervisor,
    old: HypervisorHart,
    new: HypervisorHart,
)
    requires
        old.wf(),
        transformation.declassified(old, new),
    ensures
        new.gprs.regs@.len() == old.gprs.regs@.len(),
        forall|r: int|
            0 <= r < old.gprs.regs@.len() && !transformation.written_registers().contains(r)
                ==> #[trigger] new.gprs.regs@[r] == old.gprs.regs@[r],
        new.shared_memory.slots@.len() == old.shared_memory.slots@.len(),
        forall|s: int|
            0 <= s < old.shared_memory.slots@.len() && !transformation.written_slots().contains(s)
                ==> #[trigger] new.shared_memory.slots@[s] == old.shared_memory.slots@[s],
        new.shared_memory.base_address == old.shared_memory.base_address,
        !(transformation is MmioLoadRequest) ==> new.csrs.scause == old.csrs.scause
            && new.csrs.stval == old.csrs.stval,
{
}

/// State declassified from the hypervisor hart to the confidential hart that waited for it.
pub enum DeclassifyToConfidentialVm {
    SbiResponse(SbiResponse),
    MmioLoadResponse(MmioLoadResponse),
}

impl DeclassifyToConfidentialVm {
    pub open spec fn declassified(self, old: ConfidentialHart, new: ConfidentialHart) -> bool {
        match self {
            DeclassifyToConfidentialVm::SbiResponse(r) => sbi_response_applied(old, new, r.a0, r.a1),
            DeclassifyToConfidentialVm::MmioLoadResponse(r) => mmio_load_completed(old, new, r),
        }
    }

    pub open spec fn valid(self) -> bool {
        match self {
            DeclassifyToConfidentialVm::MmioLoadResponse(r) => r.gpr < 32,
            _ => true,
        }
    }
}

/// The physical hart runs the hypervisor. Confidential memory is closed.
#[derive(Debug)]
pub struct NonConfidentialFlow {
    pub hardware_hart: HardwareHart,
}

/// The physical hart runs a confidential hart of a confidential VM. Confidential memory is
/// open. `remote_commands` are the commands the hart found in its inbox on entry, to be
/// carried out before it resumes.
#[derive(Debug)]
pub struct ConfidentialFlow {
    pub hardware_hart: HardwareHart,
    pub confidential_hart: ConfidentialHart,
    pub confidential_vm_id: ConfidentialVmId,
    pub remote_commands: Vec<ConfidentialHartRemoteCommand>,
}

/// Where the monitor goes next: back into the confidential hart or into the hypervisor.
pub enum Exit {
    ToConfidentialHart(ConfidentialFlow),
    ToHypervisor(NonConfidentialFlow),
}

impl Exit {
    pub open spec fn wf(&self) -> bool {
        match self {
            Exit::ToConfidentialHart(f) => f.wf(),
            Exit::ToHypervisor(f) => f.wf(),
        }
    }
}

/// Index of the VM with identifier `id` in `storage`.
pub open spec fn vm_index(storage: ControlDataStorage, id: ConfidentialVmId) -> int {
    choose|i: int| 0 <= i < storage.vms@.len() && (#[trigger] storage.vms@[i]).id == id
}

/// The VM with identifier `id` sits at index `i` and nowhere else.
pub(crate) proof fn lemma_vm_index_unique(storage: ControlDataStorage, id: ConfidentialVmId, i: int)
    requires
        storage.wf(),
        0 <= i < storage.vms@.len(),
        storage.vms@[i].id == id,
    ensures
        vm_index(storage, id) == i,
{
    let k = vm_index(storage, id);
    if k != i {
        assert(storage.vms@[k].id != storage.vms@[i].id);
    }
}

/// Raises a software interrupt on every hart of `targets`, stopping at the first one that the
/// CLINT has no register for.
fn send_ipis(controller: &InterruptController, clint: &mut Clint, targets: &Vec<usize>) -> (r: Result<(), Error>)
    ensures
        final(clint).msip@.len() == old(clint).msip@.len(),
        r is Ok <==> forall|t: usize| targets@.contains(t) ==> t == controller.hart_id || t < old(clint).msip@.len(),
        r is Ok ==> forall|t: usize|
            targets@.contains(t) && t != controller.hart_id ==> #[trigger] final(clint).msip@[t as int] == 1,
        r is Err ==> r->Err_0 == Error::InterruptSendingError(IPI_NO_SUCH_HART),
{
    let mut k: usize = 0;
    while k < targets.len()
        invariant
            k <= targets@.len(),
            clint.msip@.len() == old(clint).msip@.len(),
            forall|j: int|
                0 <= j < k ==> #[trigger] targets@[j] == controller.hart_id || (targets@[j] < old(
                    clint,
                ).msip@.len() && clint.msip@[targets@[j] as int] == 1),
        decreases targets@.len() - k,
    {
        let target = targets[k];
        match controller.send_ipi(clint, target) {
            Ok(()) => {},
            Err(e) => {
                assert(targets@.contains(target));
                return Err(e);
            },
        }
        k = k + 1;
    }
    assert forall|t: usize| targets@.contains(t) implies t == controller.hart_id || t < old(clint).msip@.len() by {
        let j = choose|j: int| 0 <= j < targets@.len() && targets@[j] == t;
        assert(targets@[j] == t);
    }
    assert forall|t: usize| targets@.contains(t) && t != controller.hart_id implies #[trigger] clint.msip@[t as int] == 1 by {
        let j = choose|j: int| 0 <= j < targets@.len() && targets@[j] == t;
        assert(targets@[j] == t);
    }
    Ok(())
}

/// Every physical hart in `peers` is the controller's own or has a register in the CLINT.
pub open spec fn ipis_deliverable(peers: Set<usize>, controller: InterruptController, clint_len: int) -> bool {
    forall|p: usize| peers.contains(p) ==> p == controller.hart_id || p < clint_len
}

/// Putting back at index `i` a VM with the identifier it had keeps identifiers unique.
pub(crate) proof fn lemma_replaced_vm_keeps_ids_unique(old: ControlDataStorage, new: ControlDataStorage, i: int)
    requires
        old.wf(),
        0 <= i < old.vms@.len(),
        new.vms@.len() == old.vms@.len(),
        new.vms@[i].id == old.vms@[i].id,
        new.vms@[i].wf(),
        forall|j: int| 0 <= j < old.vms@.len() && j != i ==> #[trigger] new.vms@[j] == old.vms@[j],
    ensures
        new.wf(),
{
    assert forall|a: int, b: int|
        0 <= a < new.vms@.len() && 0 <= b < new.vms@.len() && a != b implies (
        #[trigger] new.vms@[a]).id != (#[trigger] new.vms@[b]).id by {
        assert(old.vms@[a].id != old.vms@[b].id);
    }
}

/// `new` is `old` where only the VM at index `i` changed, into `vm`.
pub open spec fn only_vm_changed(
    old: ControlDataStorage,
    new: ControlDataStorage,
    i: int,
    vm: ConfidentialVm,
) -> bool {
    &&& new.vms@.len() == old.vms@.len()
    &&& new.vms@[i] == vm
    &&& forall|j: int| 0 <= j < old.vms@.len() && j != i ==> #[trigger] new.vms@[j] == old.vms@[j]
}

impl NonConfidentialFlow {
    pub open spec fn wf(&self) -> bool {
        self.hardware_hart.wf() && confidential_memory_closed(self.hardware_hart.pmp.pmpcfg0)
    }

    /// Starts running the hypervisor on `hardware_hart`, with confidential memory closed.
    pub fn new(hardware_hart: HardwareHart) -> (r: Self)
        requires
            hardware_hart.wf(),
        ensures
            r.wf(),
            r.hardware_hart.hart_id == hardware_hart.hart_id,
            r.hardware_hart.hypervisor_hart == hardware_hart.hypervisor_hart,
    {
        let mut hardware_hart = hardware_hart;
        let _flush = close_access_to_confidential_memory(&mut hardware_hart.pmp);
        NonConfidentialFlow { hardware_hart }
    }

    /// Enters hart `hart_id` of the confidential VM `confidential_vm_id`: the hart leaves its
    /// slot, its inbox is drained into the flow, and confidential memory opens. Fails, changing
    /// nothing, unless the VM exists and that hart is in its slot and started.
    pub fn into_confidential_flow(
        self,
        storage: &mut ControlDataStorage,
        confidential_vm_id: ConfidentialVmId,
        hart_id: usize,
    ) -> (r: Result<ConfidentialFlow, (NonConfidentialFlow, Error)>)
        requires
            self.wf(),
            old(storage).wf(),
        ensures
            final(storage).wf(),
            r is Ok <==> (has_vm(old(storage).vms@, confidential_vm_id) && {
                let vm = old(storage).vms@[vm_index(*old(storage), confidential_vm_id)];
                hart_id < vm.harts@.len() && vm.harts@[hart_id as int] is Some
                    && vm.harts@[hart_id as int]->Some_0.lifecycle == HartLifecycle::Started
            }),
            r matches Err((f, e)) ==> f.wf() && e == Error::InvalidParameter()
                && f.hardware_hart == self.hardware_hart && final(storage).vms@ == old(storage).vms@,
            r matches Ok(f) ==> {
                let i = vm_index(*old(storage), confidential_vm_id);
                let vm = old(storage).vms@[i];
                &&& f.wf()
                &&& f.runs_in(*final(storage))
                &&& f.confidential_vm_id == confidential_vm_id
                &&& f.confidential_hart == vm.harts@[hart_id as int]->Some_0
                &&& f.remote_commands@ == vm.inboxes@[hart_id as int]@
                &&& f.hardware_hart.hart_id == self.hardware_hart.hart_id
                &&& f.hardware_hart.hypervisor_hart == self.hardware_hart.hypervisor_hart
                &&& final(storage).vms@.len() == old(storage).vms@.len()
                &&& final(storage).vms@[i].harts@ == vm.harts@.update(hart_id as int, None)
                &&& final(storage).vms@[i].id == vm.id
                &&& final(storage).vms@[i].memory_protector.shared_pages@ == vm.memory_protector.shared_pages@
                &&& final(storage).vms@[i].running_on@ == vm.running_on@.update(
                    hart_id as int,
                    Some(self.hardware_hart.hart_id),
                )
                &&& forall|j: int|
                    0 <= j < old(storage).vms@.len() && j != i ==> #[trigger] final(storage).vms@[j]
                        == old(storage).vms@[j]
            },
    {
        let index = match storage.find(confidential_vm_id) {
            Some(index) => index,
            None => {
                return Err((self, Error::InvalidParameter()));
            },
        };
        if !storage.vms[index].can_take_hart(hart_id) {
            proof {
                lemma_vm_index_unique(*storage, confidential_vm_id, index as int);
            }
            return Err((self, Error::InvalidParameter()));
        }
        let ghost old_storage = *storage;
        proof {
            lemma_vm_index_unique(old_storage, confidential_vm_id, index as int);
        }
        let mut vm = ConfidentialVm::new(confidential_vm_id, 0, 0, Vec::new());
        storage.vms.set_and_swap(index, &mut vm);
        let taken = vm.take_hart(hart_id, self.hardware_hart.hart_id);
        storage.vms.set_and_swap(index, &mut vm);
        proof {
            lemma_replaced_vm_keeps_ids_unique(old_storage, *storage, index as int);
        }
        match taken {
            Err(e) => Err((self, e)),
            Ok((confidential_hart, remote_commands)) => {
                let mut hardware_hart = self.hardware_hart;
                let _flush = open_access_to_confidential_memory(&mut hardware_hart.pmp);
                let flow = ConfidentialFlow {
                    hardware_hart,
                    confidential_hart,
                    confidential_vm_id,
                    remote_commands,
                };
                proof {
                    assert(storage.vms@[index as int].id == confidential_vm_id);
                    lemma_vm_index_unique(*storage, confidential_vm_id, index as int);
                }
                Ok(flow)
            },
        }
    }

    /// Declassifies `transformation` into the hypervisor hart and resumes it.
    pub fn declassify_and_exit_to_hypervisor(self, transformation: DeclassifyToHypervisor) -> (r: Exit)
        requires
            self.wf(),
        ensures
            r.wf(),
            r matches Exit::ToHypervisor(f) && f.hardware_hart.hart_id == self.hardware_hart.hart_id
                && f.hardware_hart.pmp == self.hardware_hart.pmp && transformation.declassified(
                self.hardware_hart.hypervisor_hart,
                f.hardware_hart.hypervisor_hart,
            ),
    {
        let mut flow = self;
        match transformation {
            DeclassifyToHypervisor::MmioLoadRequest(m) => m.declassify_to_hypervisor_hart(
                &mut flow.hardware_hart.hypervisor_hart,
            ),
            DeclassifyToHypervisor::SbiRequest(q) => q.declassify_to_hypervisor_hart(
                &mut flow.hardware_hart.hypervisor_hart,
            ),
            DeclassifyToHypervisor::SbiResponse(s) => s.declassify_to_hypervisor_hart(
                &mut flow.hardware_hart.hypervisor_hart,
            ),
        }
        Exit::ToHypervisor(flow)
    }

    /// Applies `transformation` to the hypervisor hart and resumes it.
    pub fn apply_and_exit_to_hypervisor(
        self,
        transformation: ApplyToHypervisorHart,
        layout: &MemoryLayout,
    ) -> (r: Exit)
        requires
            self.wf(),
        ensures
            r.wf(),
            r matches Exit::ToHypervisor(f) && f.hardware_hart.hart_id == self.hardware_hart.hart_id
                && f.hardware_hart.pmp == self.hardware_hart.pmp && (match transformation {
                ApplyToHypervisorHart::SbiResponse(s) => sbi_response_declassified(
                    self.hardware_hart.hypervisor_hart,
                    f.hardware_hart.hypervisor_hart,
                    s.a0,
                    s.a1,
                ),
                ApplyToHypervisorHart::SetSharedMemory(n) => nacl_setup_applied(
                    self.hardware_hart.hypervisor_hart,
                    f.hardware_hart.hypervisor_hart,
                    n,
                    *layout,
                ),
            }),
    {
        let mut flow = self;
        match transformation {
            ApplyToHypervisorHart::SbiResponse(s) => s.apply_to_hypervisor_hart(
                &mut flow.hardware_hart.hypervisor_hart,
            ),
            ApplyToHypervisorHart::SetSharedMemory(n) => n.apply_to_hypervisor_hart(
                &mut flow.hardware_hart.hypervisor_hart,
                layout,
            ),
        }
        Exit::ToHypervisor(flow)
    }
}

impl ConfidentialFlow {
    pub open spec fn wf(&self) -> bool {
        &&& self.hardware_hart.wf()
        &&& self.confidential_hart.wf()
        &&& confidential_memory_open(self.hardware_hart.pmp.pmpcfg0)
    }

    /// The VM of the running hart is in `storage`, and the hart's slot there is empty.
    pub open spec fn runs_in(&self, storage: ControlDataStorage) -> bool {
        &&& storage.wf()
        &&& has_vm(storage.vms@, self.confidential_vm_id)
        &&& self.confidential_hart.id < storage.vms@[vm_index(storage, self.confidential_vm_id)].harts@.len()
        &&& storage.vms@[vm_index(storage, self.confidential_vm_id)].harts@[self.confidential_hart.id as int] is None
    }

    pub fn confidential_vm_id(&self) -> (r: ConfidentialVmId)
        ensures
            r == self.confidential_vm_id,
    {
        self.confidential_vm_id
    }

    /// Records what the hart waits for while the hypervisor serves it.
    pub fn set_resumable_operation(&mut self, operation: ResumableOperation)
        ensures
            final(self).confidential_hart.resumable_operation == Some(operation),
            final(self).confidential_hart.id == old(self).confidential_hart.id,
            final(self).confidential_hart.gprs == old(self).confidential_hart.gprs,
            final(self).confidential_hart.csrs == old(self).confidential_hart.csrs,
            final(self).confidential_hart.lifecycle == old(self).confidential_hart.lifecycle,
            final(self).hardware_hart == old(self).hardware_hart,
            final(self).confidential_vm_id == old(self).confidential_vm_id,
            final(self).remote_commands == old(self).remote_commands,
    {
        self.confidential_hart.resumable_operation = Some(operation);
    }

    /// Moves the running hart to its final state.
    pub fn shutdown_confidential_hart(&mut self)
        ensures
            final(self).confidential_hart.lifecycle == HartLifecycle::Shutdown,
            final(self).confidential_hart.id == old(self).confidential_hart.id,
            final(self).confidential_hart.gprs == old(self).confidential_hart.gprs,
            final(self).confidential_hart.csrs == old(self).confidential_hart.csrs,
            final(self).confidential_hart.resumable_operation == old(
                self,
            ).confidential_hart.resumable_operation,
            final(self).hardware_hart == old(self).hardware_hart,
            final(self).confidential_vm_id == old(self).confidential_vm_id,
            final(self).remote_commands == old(self).remote_commands,
    {
        self.confidential_hart.shutdown();
    }

    /// Posts `command` to the peers of the running hart that it selects, and raises a software
    /// interrupt on every physical hart that runs one of them. Fails when the CLINT has no
    /// register for one of those harts.
    pub fn broadcast_remote_command(
        &self,
        storage: &mut ControlDataStorage,
        command: ConfidentialHartRemoteCommand,
        controller: &InterruptController,
        clint: &mut Clint,
    ) -> (r: Result<(), Error>)
        requires
            self.runs_in(*old(storage)),
        ensures
            self.runs_in(*final(storage)),
            final(clint).msip@.len() == old(clint).msip@.len(),
            ({
                let i = vm_index(*old(storage), self.confidential_vm_id);
                let vm = old(storage).vms@[i];
                let new_vm = final(storage).vms@[i];
                let peers = vm.peer_physical_harts(self.confidential_hart.id, command);
                &&& only_vm_changed(*old(storage), *final(storage), i, new_vm)
                &&& new_vm.harts@ == vm.harts@
                &&& new_vm.running_on@ == vm.running_on@
                &&& new_vm.id == vm.id
                &&& new_vm.memory_protector.shared_pages@ == vm.memory_protector.shared_pages@
                &&& new_vm.inboxes@.len() == vm.inboxes@.len()
                &&& forall|h: int|
                    0 <= h < vm.inboxes@.len() ==> (#[trigger] new_vm.inboxes@[h])@ == if h
                        != self.confidential_hart.id && command.selects(h as usize) {
                        vm.inboxes@[h]@.push(command)
                    } else {
                        vm.inboxes@[h]@
                    }
                &&& (r is Ok <==> ipis_deliverable(peers, *controller, old(clint).msip@.len() as int))
                &&& r is Ok ==> forall|p: usize|
                    peers.contains(p) && p != controller.hart_id ==> #[trigger] final(clint).msip@[p as int] == 1
                &&& r is Err ==> r->Err_0 == Error::InterruptSendingError(IPI_NO_SUCH_HART)
            }),
    {
        let ghost old_storage = *storage;
        let index = match storage.find(self.confidential_vm_id) {
            Some(index) => index,
            None => {
                return Ok(());
            },
        };
        proof {
            lemma_vm_index_unique(old_storage, self.confidential_vm_id, index as int);
        }
        let mut vm = ConfidentialVm::new(self.confidential_vm_id, 0, 0, Vec::new());
        storage.vms.set_and_swap(index, &mut vm);
        let targets = vm.broadcast_remote_command(self.confidential_hart.id, command);
        storage.vms.set_and_swap(index, &mut vm);
        proof {
            lemma_replaced_vm_keeps_ids_unique(old_storage, *storage, index as int);
            lemma_vm_index_unique(*storage, self.confidential_vm_id, index as int);
        }
        let ghost peers = old_storage.vms@[index as int].peer_physical_harts(self.confidential_hart.id, command);
        let r = send_ipis(controller, clint, &targets);
        proof {
            if r is Ok {
                assert forall|p: usize| peers.contains(p) implies p == controller.hart_id || p < old(
                    clint,
                ).msip@.len() by {
                    assert(targets@.contains(p));
                }
                assert forall|p: usize| peers.contains(p) && p != controller.hart_id implies #[trigger] clint.msip@[p as int] == 1 by {
                    assert(targets@.contains(p));
                }
            } else {
                let t = choose|t: usize| targets@.contains(t) && t != controller.hart_id && t >= old(clint).msip@.len();
                assert(peers.contains(t));
            }
        }
        r
    }

    /// Applies `transformation` to the running hart and resumes it.
    pub fn apply_and_exit_to_confidential_hart(self, transformation: ApplyToConfidentialHart) -> (r: Exit)
        requires
            self.wf(),
        ensures
            r.wf(),
            r matches Exit::ToConfidentialHart(f) && f.hardware_hart == self.hardware_hart
                && f.confidential_vm_id == self.confidential_vm_id && f.remote_commands
                == self.remote_commands && transformation.applied(
                self.confidential_hart,
                f.confidential_hart,
            ),
    {
        let mut flow = self;
        match transformation {
            ApplyToConfidentialHart::MmioAccessFault(f) => f.apply_to_confidential_hart(
                &mut flow.confidential_hart,
            ),
            ApplyToConfidentialHart::SbiResponse(s) => s.apply_to_confidential_hart(
                &mut flow.confidential_hart,
            ),
            ApplyToConfidentialHart::VirtualInstruction(v) => v.apply_to_confidential_hart(
                &mut flow.confidential_hart,
            ),
        }
        Exit::ToConfidentialHart(flow)
    }

    /// Declassifies `transformation` from the hypervisor into the running hart and resumes it.
    pub fn declassify_and_exit_to_confidential_hart(
        self,
        transformation: DeclassifyToConfidentialVm,
    ) -> (r: Exit)
        requires
            self.wf(),
            transformation.valid(),
        ensures
            r.wf(),
            r matches Exit::ToConfidentialHart(f) && f.hardware_hart == self.hardware_hart
                && f.confidential_vm_id == self.confidential_vm_id && f.remote_commands
                == self.remote_commands && transformation.declassified(
                self.confidential_hart,
                f.confidential_hart,
            ),
    {
        let mut flow = self;
        match transformation {
            DeclassifyToConfidentialVm::SbiResponse(s) => s.declassify_to_confidential_hart(
                &mut flow.confidential_hart,
            ),
            DeclassifyToConfidentialVm::MmioLoadResponse(m) => m.declassify_to_confidential_hart(
                &mut flow.confidential_hart,
            ),
        }
        Exit::ToConfidentialHart(flow)
    }

    /// Leaves the confidential hart: it goes back into its slot and confidential memory closes.
    pub fn into_non_confidential_flow(self, storage: &mut ControlDataStorage) -> (r: NonConfidentialFlow)
        requires
            self.wf(),
            self.runs_in(*old(storage)),
        ensures
            r.wf(),
            final(storage).wf(),
            r.hardware_hart.hart_id == self.hardware_hart.hart_id,
            r.hardware_hart.hypervisor_hart == self.hardware_hart.hypervisor_hart,
            ({
                let i = vm_index(*old(storage), self.confidential_vm_id);
                let vm = old(storage).vms@[i];
                let new_vm = final(storage).vms@[i];
                &&& only_vm_changed(*old(storage), *final(storage), i, new_vm)
                &&& new_vm.harts@ == vm.harts@.update(
                    self.confidential_hart.id as int,
                    Some(self.confidential_hart),
                )
                &&& new_vm.id == vm.id
                &&& new_vm.inboxes@ == vm.inboxes@
                &&& new_vm.memory_protector.shared_pages@ == vm.memory_protector.shared_pages@
                &&& new_vm.running_on@ == vm.running_on@.update(self.confidential_hart.id as int, None)
            }),
    {
        let ConfidentialFlow { hardware_hart, confidential_hart, confidential_vm_id, remote_commands: _ } = self;
        let mut hardware_hart = hardware_hart;
        let _flush = close_access_to_confidential_memory(&mut hardware_hart.pmp);
        let index = match storage.find(confidential_vm_id) {
            Some(index) => index,
            None => {
                return NonConfidentialFlow { hardware_hart };
            },
        };
        let ghost old_storage = *storage;
        proof {
            lemma_vm_index_unique(old_storage, confidential_vm_id, index as int);
        }
        let mut vm = ConfidentialVm::new(confidential_vm_id, 0, 0, Vec::new());
        storage.vms.set_and_swap(index, &mut vm);
        vm.return_hart(confidential_hart);
        storage.vms.set_and_swap(index, &mut vm);
        proof {
            lemma_replaced_vm_keeps_ids_unique(old_storage, *storage, index as int);
        }
        NonConfidentialFlow { hardware_hart }
    }
}

/// PMP closure: whenever the hart is not in the confidential flow, the PMP entries reserved for
/// confidential memory match no address.
pub proof fn lemma_confidential_memory_closed_outside_confidential_flow(exit: Exit)
    requires
        exit.wf(),
        exit is ToHypervisor,
    ensures
        confidential_memory_closed(exit->ToHypervisor_0.hardware_hart.pmp.pmpcfg0),
{
}

} // verus!

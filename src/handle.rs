use vstd::prelude::*;

use crate::control_data::{
    all_harts_shutdown, has_vm, ConfidentialHartRemoteCommand, ConfidentialVm, ConfidentialVmId,
    ControlDataStorage,
};
use crate::decode::{
    decode_result_register, funct3_of, is_load, load_access, load_width_of, rd_of, WFI_INSTRUCTION,
};
use crate::error::{sbi_error_code_of, Error, SBI_SUCCESS};
use crate::flow::{
    ipis_deliverable, lemma_replaced_vm_keeps_ids_unique, lemma_vm_index_unique, only_vm_changed,
    vm_index, ApplyToConfidentialHart, ApplyToHypervisorHart, ConfidentialFlow,
    DeclassifyToConfidentialVm, DeclassifyToHypervisor, Exit, NonConfidentialFlow,
};
use crate::handlers::{
    mmio_load_completed, mmio_load_declassified, nacl_setup_applied, sbi_request_declassified,
    sbi_response_applied, sbi_response_declassified, trap_injected, valid_nacl_page,
    DestroyConfidentialVm, InvalidCall, MmioAccessFault, MmioLoadRequest, MmioLoadResponse,
    NaclSetupSharedMemory, NoOperation, RemoteFenceI, SbiGetMvendorid, SbiRequest, SbiResponse,
    SharePageRequest, UnsharePageRequest, VirtualInstruction, CAUSE_ILLEGAL_INSTRUCTION,
    CAUSE_LOAD_ACCESS, SRST_EXTID, SRST_SYSTEM_RESET_FID,
};
use crate::hart::{
    ConfidentialHart, HartLifecycle, MmioLoadPending, ResumableOperation, GPR_A0, GPR_A1,
};
use crate::interrupt_controller::{Clint, InterruptController, IPI_NO_SUCH_HART};
use crate::memory_layout::{
    ConfidentialVmPhysicalAddress, MemoryLayout, NonConfidentialMemoryAddress,
};
use crate::page_size::PageSize;
use crate::shared_page::{maps, SharedPage, SHARED_PAGE_BYTES};

verus! {

/// The exit resumes the confidential hart, which changed from `old` by the SBI response
/// `(a0, a1)`.
pub open spec fn resumes_with_response(r: Exit, old: ConfidentialFlow, a0: usize, a1: usize) -> bool {
    r matches Exit::ToConfidentialHart(f) && f.hardware_hart == old.hardware_hart
        && f.confidential_vm_id == old.confidential_vm_id && sbi_response_applied(
        old.confidential_hart,
        f.confidential_hart,
        a0,
        a1,
    )
}

impl InvalidCall {
    /// Answers an unknown call with the `InvalidCall` error.
    pub fn handle(self, confidential_flow: ConfidentialFlow) -> (r: Exit)
        requires
            confidential_flow.wf(),
        ensures
            r.wf(),
            resumes_with_response(
                r,
                confidential_flow,
                sbi_error_code_of(Error::InvalidCall(self.extension_id, self.function_id)),
                0,
            ),
    {
        let error = Error::InvalidCall(self.extension_id, self.function_id);
        let transformation = ApplyToConfidentialHart::SbiResponse(SbiResponse::error(error));
        confidential_flow.apply_and_exit_to_confidential_hart(transformation)
    }
}

impl SbiGetMvendorid {
    /// Answers with the host's `mvendorid`, which the caller read from the hardware.
    pub fn handle(self, confidential_flow: ConfidentialFlow, mvendorid: usize) -> (r: Exit)
        requires
            confidential_flow.wf(),
        ensures
            r.wf(),
            resumes_with_response(r, confidential_flow, SBI_SUCCESS, mvendorid),
    {
        let transformation = ApplyToConfidentialHart::SbiResponse(
            SbiResponse::success_with_code(mvendorid),
        );
        confidential_flow.apply_and_exit_to_confidential_hart(transformation)
    }
}

impl NoOperation {
    pub fn handle(self, confidential_flow: ConfidentialFlow) -> (r: Exit)
        requires
            confidential_flow.wf(),
        ensures
            r.wf(),
            resumes_with_response(r, confidential_flow, SBI_SUCCESS, 0),
    {
        confidential_flow.apply_and_exit_to_confidential_hart(
            ApplyToConfidentialHart::SbiResponse(SbiResponse::success()),
        )
    }
}

impl RemoteFenceI {
    /// Posts a `fence.i` request to the selected peers, interrupts the physical harts that run
    /// them, and answers with success, or with the error when an interrupt cannot be sent.
    pub fn handle(
        self,
        confidential_flow: ConfidentialFlow,
        storage: &mut ControlDataStorage,
        controller: &InterruptController,
        clint: &mut Clint,
    ) -> (r: Exit)
        requires
            confidential_flow.wf(),
            confidential_flow.runs_in(*old(storage)),
        ensures
            r.wf(),
            confidential_flow.runs_in(*final(storage)),
            ({
                let i = vm_index(*old(storage), confidential_flow.confidential_vm_id);
                let vm = old(storage).vms@[i];
                let new_vm = final(storage).vms@[i];
                let command = ConfidentialHartRemoteCommand::RemoteFenceI(self.ipi);
                let delivered = ipis_deliverable(
                    vm.peer_physical_harts(confidential_flow.confidential_hart.id, command),
                    *controller,
                    old(clint).msip@.len() as int,
                );
                &&& resumes_with_response(
                    r,
                    confidential_flow,
                    if delivered {
                        SBI_SUCCESS
                    } else {
                        sbi_error_code_of(Error::InterruptSendingError(IPI_NO_SUCH_HART))
                    },
                    0,
                )
                &&& only_vm_changed(*old(storage), *final(storage), i, new_vm)
                &&& forall|h: int|
                    0 <= h < vm.inboxes@.len() ==> (#[trigger] new_vm.inboxes@[h])@ == if h
                        != confidential_flow.confidential_hart.id && self.ipi.selects(h as usize) {
                        vm.inboxes@[h]@.push(command)
                    } else {
                        vm.inboxes@[h]@
                    }
            }),
    {
        let response = match confidential_flow.broadcast_remote_command(
            storage,
            self.command(),
            controller,
            clint,
        ) {
            Ok(()) => SbiResponse::success(),
            Err(error) => SbiResponse::error(error),
        };
        confidential_flow.apply_and_exit_to_confidential_hart(
            ApplyToConfidentialHart::SbiResponse(response),
        )
    }
}

impl VirtualInstruction {
    /// Emulates `wfi` by stepping over it; any other virtual instruction gets an
    /// illegal-instruction trap.
    pub fn handle(self, confidential_flow: ConfidentialFlow) -> (r: Exit)
        requires
            confidential_flow.wf(),
        ensures
            r.wf(),
            r matches Exit::ToConfidentialHart(f) && f.hardware_hart == confidential_flow.hardware_hart
                && if self.instruction == WFI_INSTRUCTION {
                ApplyToConfidentialHart::VirtualInstruction(self).applied(
                    confidential_flow.confidential_hart,
                    f.confidential_hart,
                )
            } else {
                trap_injected(
                    confidential_flow.confidential_hart,
                    f.confidential_hart,
                    MmioAccessFault {
                        cause: CAUSE_ILLEGAL_INSTRUCTION,
                        mtval: self.instruction,
                        instruction_length: self.instruction_length,
                    },
                )
            },
    {
        let transformation = if self.instruction == WFI_INSTRUCTION {
            ApplyToConfidentialHart::VirtualInstruction(self)
        } else {
            ApplyToConfidentialHart::MmioAccessFault(
                MmioAccessFault::new(CAUSE_ILLEGAL_INSTRUCTION, self.instruction, self.instruction_length),
            )
        };
        confidential_flow.apply_and_exit_to_confidential_hart(transformation)
    }
}

impl MmioLoadRequest {
    /// An access outside the VM's MMIO regions gets a load access fault. A load inside them is
    /// recorded on the hart and declassified to the hypervisor; any other instruction there is
    /// reported to the hypervisor as an invalid parameter.
    pub fn handle(self, confidential_flow: ConfidentialFlow, storage: &mut ControlDataStorage) -> (r: Exit)
        requires
            confidential_flow.wf(),
            confidential_flow.runs_in(*old(storage)),
        ensures
            r.wf(),
            final(storage).wf(),
            ({
                let vm = old(storage).vms@[vm_index(*old(storage), confidential_flow.confidential_vm_id)];
                let instruction = self.instruction_spec();
                if !vm.in_mmio_region(self.fault_address_spec()) {
                    &&& r matches Exit::ToConfidentialHart(f) && trap_injected(
                        confidential_flow.confidential_hart,
                        f.confidential_hart,
                        MmioAccessFault {
                            cause: CAUSE_LOAD_ACCESS,
                            mtval: self.mtval,
                            instruction_length: self.instruction_length_spec(),
                        },
                    )
                    &&& *final(storage) == *old(storage)
                } else if is_load(instruction) {
                    let i = vm_index(*old(storage), confidential_flow.confidential_vm_id);
                    let pending = MmioLoadPending {
                        instruction_length: self.instruction_length_spec(),
                        gpr: rd_of(instruction),
                        width: load_width_of(funct3_of(instruction)),
                        signed: funct3_of(instruction) < 4,
                    };
                    &&& r matches Exit::ToHypervisor(f) && mmio_load_declassified(
                        confidential_flow.hardware_hart.hypervisor_hart,
                        f.hardware_hart.hypervisor_hart,
                        self,
                    )
                    &&& final(storage).vms@[i].harts@[confidential_flow.confidential_hart.id as int]
                        == Some(
                        ConfidentialHart {
                            resumable_operation: Some(ResumableOperation::MmioLoad(pending)),
                            ..confidential_flow.confidential_hart
                        },
                    )
                    &&& only_vm_changed(*old(storage), *final(storage), i, final(storage).vms@[i])
                    &&& final(storage).vms@[i].id == vm.id
                } else {
                    r matches Exit::ToHypervisor(f) && sbi_response_declassified(
                        confidential_flow.hardware_hart.hypervisor_hart,
                        f.hardware_hart.hypervisor_hart,
                        sbi_error_code_of(Error::InvalidParameter()),
                        0,
                    )
                }
            }),
    {
        let instruction = self.mtinst | 0b11;
        let instruction_length = self.instruction_length();
        let fault_address = self.fault_address();
        let is_mmio = match storage.find(confidential_flow.confidential_vm_id) {
            Some(index) => {
                proof {
                    lemma_vm_index_unique(*storage, confidential_flow.confidential_vm_id, index as int);
                }
                storage.vms[index].is_mmio_address(fault_address)
            },
            None => false,
        };
        if !is_mmio {
            let fault = MmioAccessFault::new(CAUSE_LOAD_ACCESS, self.mtval, instruction_length);
            return confidential_flow.apply_and_exit_to_confidential_hart(
                ApplyToConfidentialHart::MmioAccessFault(fault),
            );
        }
        match decode_result_register(instruction) {
            Ok(gpr) => {
                let (width, signed) = load_access(instruction);
                let mut flow = confidential_flow;
                flow.set_resumable_operation(
                    ResumableOperation::MmioLoad(
                        MmioLoadPending { instruction_length, gpr, width, signed },
                    ),
                );
                let ghost hart_id = flow.confidential_hart.id;
                let ghost running = flow.confidential_hart;
                let non_confidential_flow = flow.into_non_confidential_flow(storage);
                proof {
                    let i = vm_index(*old(storage), confidential_flow.confidential_vm_id);
                    assert(final(storage).vms@[i].harts@[hart_id as int] == Some(running));
                }
                non_confidential_flow.declassify_and_exit_to_hypervisor(
                    DeclassifyToHypervisor::MmioLoadRequest(self),
                )
            },
            Err(error) => {
                let non_confidential_flow = confidential_flow.into_non_confidential_flow(storage);
                non_confidential_flow.declassify_and_exit_to_hypervisor(
                    DeclassifyToHypervisor::SbiResponse(SbiResponse::error(error)),
                )
            },
        }
    }
}

impl ConfidentialFlow {
    /// Removes the shared page at `address` from the second-stage page table of the running
    /// hart's VM.
    pub fn unmap_shared_page(
        &self,
        storage: &mut ControlDataStorage,
        address: ConfidentialVmPhysicalAddress,
    ) -> (r: Result<PageSize, Error>)
        requires
            self.runs_in(*old(storage)),
        ensures
            self.runs_in(*final(storage)),
            ({
                let i = vm_index(*old(storage), self.confidential_vm_id);
                let vm = old(storage).vms@[i];
                let new_vm = final(storage).vms@[i];
                &&& only_vm_changed(*old(storage), *final(storage), i, new_vm)
                &&& new_vm.harts@ == vm.harts@
                &&& new_vm.inboxes@ == vm.inboxes@
                &&& new_vm.running_on@ == vm.running_on@
                &&& new_vm.id == vm.id
                &&& (r is Ok <==> maps(vm.memory_protector.shared_pages@, address))
                &&& r is Ok ==> exists|k: int|
                    0 <= k < vm.memory_protector.shared_pages@.len()
                        && vm.memory_protector.shared_pages@[k].confidential_vm_address == address
                        && new_vm.memory_protector.shared_pages@
                        == vm.memory_protector.shared_pages@.remove(k)
                &&& r is Err ==> r->Err_0 == Error::InvalidParameter()
                    && new_vm.memory_protector.shared_pages@ == vm.memory_protector.shared_pages@
            }),
    {
        let index = match storage.find(self.confidential_vm_id) {
            Some(index) => index,
            None => {
                return Err(Error::InvalidParameter());
            },
        };
        let ghost old_storage = *storage;
        proof {
            lemma_vm_index_unique(old_storage, self.confidential_vm_id, index as int);
        }
        let mut vm = ConfidentialVm::new(self.confidential_vm_id, 0, 0, Vec::new());
        storage.vms.set_and_swap(index, &mut vm);
        let r = vm.memory_protector.unmap_shared_page(&address);
        storage.vms.set_and_swap(index, &mut vm);
        proof {
            lemma_replaced_vm_keeps_ids_unique(old_storage, *storage, index as int);
            lemma_vm_index_unique(*storage, self.confidential_vm_id, index as int);
        }
        r
    }
}

impl ConfidentialFlow {
    /// Adds `page` to the second-stage page table of the running hart's VM.
    pub fn map_shared_page(&self, storage: &mut ControlDataStorage, page: SharedPage) -> (r: Result<(), Error>)
        requires
            self.runs_in(*old(storage)),
        ensures
            self.runs_in(*final(storage)),
            ({
                let i = vm_index(*old(storage), self.confidential_vm_id);
                let vm = old(storage).vms@[i];
                let new_vm = final(storage).vms@[i];
                &&& only_vm_changed(*old(storage), *final(storage), i, new_vm)
                &&& new_vm.harts@ == vm.harts@
                &&& new_vm.inboxes@ == vm.inboxes@
                &&& new_vm.running_on@ == vm.running_on@
                &&& new_vm.id == vm.id
                &&& (r is Ok <==> (page.confidential_vm_address.address % 4096 == 0 && !maps(
                    vm.memory_protector.shared_pages@,
                    page.confidential_vm_address,
                )))
                &&& r is Ok ==> new_vm.memory_protector.shared_pages@ == vm.memory_protector.shared_pages@.push(page)
                &&& r is Err ==> new_vm.memory_protector.shared_pages@ == vm.memory_protector.shared_pages@
            }),
    {
        let index = match storage.find(self.confidential_vm_id) {
            Some(index) => index,
            None => {
                return Err(Error::InvalidParameter());
            },
        };
        let ghost old_storage = *storage;
        proof {
            lemma_vm_index_unique(old_storage, self.confidential_vm_id, index as int);
        }
        let mut vm = ConfidentialVm::new(self.confidential_vm_id, 0, 0, Vec::new());
        storage.vms.set_and_swap(index, &mut vm);
        let r = vm.memory_protector.map_shared_page(page);
        storage.vms.set_and_swap(index, &mut vm);
        proof {
            lemma_replaced_vm_keeps_ids_unique(old_storage, *storage, index as int);
            lemma_vm_index_unique(*storage, self.confidential_vm_id, index as int);
        }
        r
    }
}

impl SharePageRequest {
    /// Checks the request and passes it on to the hypervisor, which must name the page of
    /// non-confidential memory to share; the hart waits for that answer. A bad request is
    /// answered with its error instead.
    pub fn handle(self, confidential_flow: ConfidentialFlow, storage: &mut ControlDataStorage) -> (r: Exit)
        requires
            confidential_flow.wf(),
            confidential_flow.runs_in(*old(storage)),
        ensures
            r.wf(),
            final(storage).wf(),
            self.address % 4096 != 0 ==> resumes_with_response(
                r,
                confidential_flow,
                sbi_error_code_of(Error::AddressNotAligned()),
                0,
            ),
            self.address % 4096 == 0 && self.size != 4096 ==> resumes_with_response(
                r,
                confidential_flow,
                sbi_error_code_of(Error::InvalidParameter()),
                0,
            ),
            self.address % 4096 == 0 && self.size == 4096 ==> (r matches Exit::ToHypervisor(f)
                && sbi_request_declassified(
                confidential_flow.hardware_hart.hypervisor_hart,
                f.hardware_hart.hypervisor_hart,
                self.share_page_sbi_request_spec(),
            )) && (final(storage).vms@[vm_index(*old(storage), confidential_flow.confidential_vm_id)].harts@[confidential_flow.confidential_hart.id as int]
                matches Some(h) && h.resumable_operation == Some(ResumableOperation::SharePage(self.address))),
    {
        if self.address % SHARED_PAGE_BYTES != 0 {
            return confidential_flow.apply_and_exit_to_confidential_hart(
                ApplyToConfidentialHart::SbiResponse(SbiResponse::error(Error::AddressNotAligned())),
            );
        }
        if self.size != SHARED_PAGE_BYTES {
            return confidential_flow.apply_and_exit_to_confidential_hart(
                ApplyToConfidentialHart::SbiResponse(SbiResponse::error(Error::InvalidParameter())),
            );
        }
        let mut flow = confidential_flow;
        flow.set_resumable_operation(ResumableOperation::SharePage(self.address));
        let ghost hart_id = flow.confidential_hart.id;
        let ghost running = flow.confidential_hart;
        let non_confidential_flow = flow.into_non_confidential_flow(storage);
        proof {
            let i = vm_index(*old(storage), confidential_flow.confidential_vm_id);
            assert(final(storage).vms@[i].harts@[hart_id as int] == Some(running));
        }
        non_confidential_flow.declassify_and_exit_to_hypervisor(
            DeclassifyToHypervisor::SbiRequest(self.share_page_sbi_request()),
        )
    }
}

impl UnsharePageRequest {
    /// Checks the request, unmaps the page, asks every hart of the VM to flush its guest-stage
    /// translations of it, and passes the request on to the hypervisor. A bad request, or a
    /// flush request that cannot be delivered, is answered with its error instead.
    pub fn handle(
        self,
        confidential_flow: ConfidentialFlow,
        storage: &mut ControlDataStorage,
        controller: &InterruptController,
        clint: &mut Clint,
    ) -> (r: Exit)
        requires
            confidential_flow.wf(),
            confidential_flow.runs_in(*old(storage)),
        ensures
            r.wf(),
            final(storage).wf(),
            self.address % 4096 != 0 ==> resumes_with_response(
                r,
                confidential_flow,
                sbi_error_code_of(Error::AddressNotAligned()),
                0,
            ),
            self.address % 4096 == 0 && self.size != 4096 ==> resumes_with_response(
                r,
                confidential_flow,
                sbi_error_code_of(Error::InvalidParameter()),
                0,
            ),
            (self.address % 4096 != 0 || self.size != 4096) ==> *final(storage) == *old(storage)
                && *final(clint) == *old(clint),
            ({
                let vm = old(storage).vms@[vm_index(*old(storage), confidential_flow.confidential_vm_id)];
                let a = ConfidentialVmPhysicalAddress { address: self.address };
                &&& self.address % 4096 == 0 && self.size == 4096 && !maps(
                    vm.memory_protector.shared_pages@,
                    a,
                ) ==> resumes_with_response(
                    r,
                    confidential_flow,
                    sbi_error_code_of(Error::InvalidParameter()),
                    0,
                )
                &&& self.address % 4096 == 0 && self.size == 4096 && maps(
                    vm.memory_protector.shared_pages@,
                    a,
                ) ==> {
                    let command = ConfidentialHartRemoteCommand::RemoteHfenceGvmaVmid {
                        address: self.address,
                        size: 4096,
                        vm_id: confidential_flow.confidential_vm_id,
                    };
                    let i = vm_index(*old(storage), confidential_flow.confidential_vm_id);
                    let new_vm = final(storage).vms@[i];
                    if ipis_deliverable(
                        vm.peer_physical_harts(confidential_flow.confidential_hart.id, command),
                        *controller,
                        old(clint).msip@.len() as int,
                    ) {
                        &&& r matches Exit::ToHypervisor(f) && sbi_request_declassified(
                            confidential_flow.hardware_hart.hypervisor_hart,
                            f.hardware_hart.hypervisor_hart,
                            self.unshare_page_sbi_request_spec(),
                        )
                        &&& exists|k: int|
                            0 <= k < vm.memory_protector.shared_pages@.len()
                                && vm.memory_protector.shared_pages@[k].confidential_vm_address == a
                                && new_vm.memory_protector.shared_pages@
                                == vm.memory_protector.shared_pages@.remove(k)
                        &&& new_vm.harts@[confidential_flow.confidential_hart.id as int] == Some(
                            ConfidentialHart {
                                resumable_operation: Some(ResumableOperation::SbiRequest),
                                ..confidential_flow.confidential_hart
                            },
                        )
                        &&& only_vm_changed(*old(storage), *final(storage), i, new_vm)
                    } else {
                        resumes_with_response(
                            r,
                            confidential_flow,
                            sbi_error_code_of(Error::InterruptSendingError(IPI_NO_SUCH_HART)),
                            0,
                        )
                    }
                }
            }),
    {
        if self.address % SHARED_PAGE_BYTES != 0 {
            return confidential_flow.apply_and_exit_to_confidential_hart(
                ApplyToConfidentialHart::SbiResponse(SbiResponse::error(Error::AddressNotAligned())),
            );
        }
        if self.size != SHARED_PAGE_BYTES {
            return confidential_flow.apply_and_exit_to_confidential_hart(
                ApplyToConfidentialHart::SbiResponse(SbiResponse::error(Error::InvalidParameter())),
            );
        }
        let address = ConfidentialVmPhysicalAddress::new(self.address);
        let ghost i = vm_index(*old(storage), confidential_flow.confidential_vm_id);
        match confidential_flow.unmap_shared_page(storage, address) {
            Err(error) => confidential_flow.apply_and_exit_to_confidential_hart(
                ApplyToConfidentialHart::SbiResponse(SbiResponse::error(error)),
            ),
            Ok(_) => {
                proof {
                    lemma_vm_index_unique(*storage, confidential_flow.confidential_vm_id, i);
                }
                let command = ConfidentialHartRemoteCommand::RemoteHfenceGvmaVmid {
                    address: self.address,
                    size: SHARED_PAGE_BYTES,
                    vm_id: confidential_flow.confidential_vm_id,
                };
                if let Err(error) = confidential_flow.broadcast_remote_command(
                    storage,
                    command,
                    controller,
                    clint,
                ) {
                    return confidential_flow.apply_and_exit_to_confidential_hart(
                        ApplyToConfidentialHart::SbiResponse(SbiResponse::error(error)),
                    );
                }
                proof {
                    lemma_vm_index_unique(*storage, confidential_flow.confidential_vm_id, i);
                }
                let mut flow = confidential_flow;
                flow.set_resumable_operation(ResumableOperation::SbiRequest);
                let non_confidential_flow = flow.into_non_confidential_flow(storage);
                non_confidential_flow.declassify_and_exit_to_hypervisor(
                    DeclassifyToHypervisor::SbiRequest(self.unshare_page_sbi_request()),
                )
            },
        }
    }

    pub open spec fn unshare_page_sbi_request_spec(&self) -> SbiRequest {
        SbiRequest {
            extension_id: crate::handlers::COVG_EXTID,
            function_id: crate::handlers::COVG_UNSHARE_MEMORY_FID,
            a0: self.address,
            a1: self.size,
        }
    }
}

/// Shuts down the running confidential hart, returns it to its VM, removes the VM if that was
/// its last running hart, and tells the hypervisor about the reset.
pub fn shutdown_confidential_hart(
    confidential_flow: ConfidentialFlow,
    storage: &mut ControlDataStorage,
) -> (r: Exit)
    requires
        confidential_flow.wf(),
        confidential_flow.runs_in(*old(storage)),
    ensures
        r.wf(),
        final(storage).wf(),
        r matches Exit::ToHypervisor(f) && sbi_request_declassified(
            confidential_flow.hardware_hart.hypervisor_hart,
            f.hardware_hart.hypervisor_hart,
            SbiRequest { extension_id: SRST_EXTID, function_id: SRST_SYSTEM_RESET_FID, a0: 0, a1: 0 },
        ),
        ({
            let i = vm_index(*old(storage), confidential_flow.confidential_vm_id);
            let vm = old(storage).vms@[i];
            let harts = vm.harts@.update(
                confidential_flow.confidential_hart.id as int,
                Some(
                    crate::hart::ConfidentialHart {
                        lifecycle: HartLifecycle::Shutdown,
                        ..confidential_flow.confidential_hart
                    },
                ),
            );
            &&& all_harts_shutdown(harts) ==> final(storage).vms@ == old(storage).vms@.remove(i)
            &&& !all_harts_shutdown(harts) ==> {
                let kept = final(storage).vms@[i];
                &&& only_vm_changed(*old(storage), *final(storage), i, kept)
                &&& kept.harts@ == harts
                &&& kept.id == vm.id
                &&& kept.inboxes@ == vm.inboxes@
                &&& kept.memory_protector.shared_pages@ == vm.memory_protector.shared_pages@
                &&& kept.running_on@ == vm.running_on@.update(
                    confidential_flow.confidential_hart.id as int,
                    None,
                )
            }
        }),
{
    let mut flow = confidential_flow;
    let confidential_vm_id = flow.confidential_vm_id();
    flow.shutdown_confidential_hart();
    let ghost stopped = flow.confidential_hart;
    assert(stopped == (crate::hart::ConfidentialHart {
        lifecycle: HartLifecycle::Shutdown,
        ..confidential_flow.confidential_hart
    }));
    let ghost i = vm_index(*old(storage), confidential_vm_id);
    let non_confidential_flow = flow.into_non_confidential_flow(storage);
    let ghost mid = *storage;
    proof {
        assert(mid.vms@[i].id == confidential_vm_id);
        assert forall|j: int| 0 <= j < mid.vms@.len() && (#[trigger] mid.vms@[j]).id == confidential_vm_id implies j == i by {
            if j != i {
                assert(mid.vms@[j].id != mid.vms@[i].id);
            }
        }
    }
    let _ = storage.remove_confidential_vm(confidential_vm_id);
    let kvm_srst_system_reset = SbiRequest::new(SRST_EXTID, SRST_SYSTEM_RESET_FID, 0, 0);
    non_confidential_flow.declassify_and_exit_to_hypervisor(
        DeclassifyToHypervisor::SbiRequest(kvm_srst_system_reset),
    )
}

impl DestroyConfidentialVm {
    /// Removes the VM, which succeeds only when all its harts are shut down, and answers the
    /// hypervisor with the outcome.
    pub fn handle(
        self,
        non_confidential_flow: NonConfidentialFlow,
        storage: &mut ControlDataStorage,
        layout: &MemoryLayout,
    ) -> (r: Exit)
        requires
            non_confidential_flow.wf(),
            old(storage).wf(),
        ensures
            r.wf(),
            final(storage).wf(),
            ({
                let removable = exists|i: int|
                    0 <= i < old(storage).vms@.len() && (#[trigger] old(storage).vms@[i]).id
                        == self.confidential_vm_id && all_harts_shutdown(old(storage).vms@[i].harts@);
                &&& r matches Exit::ToHypervisor(f) && sbi_response_declassified(
                    non_confidential_flow.hardware_hart.hypervisor_hart,
                    f.hardware_hart.hypervisor_hart,
                    if removable {
                        SBI_SUCCESS
                    } else {
                        sbi_error_code_of(Error::InvalidParameter())
                    },
                    0,
                )
                &&& removable ==> exists|i: int|
                    0 <= i < old(storage).vms@.len() && (#[trigger] old(storage).vms@[i]).id
                        == self.confidential_vm_id && final(storage).vms@ == old(storage).vms@.remove(i)
                &&& !removable ==> final(storage).vms@ == old(storage).vms@
            }),
    {
        let response = match storage.remove_confidential_vm(self.confidential_vm_id) {
            Ok(_) => SbiResponse::success(),
            Err(error) => SbiResponse::error(error),
        };
        non_confidential_flow.apply_and_exit_to_hypervisor(
            ApplyToHypervisorHart::SbiResponse(response),
            layout,
        )
    }
}

impl NaclSetupSharedMemory {
    /// Records the hypervisor's NACL shared memory and answers it.
    pub fn handle(self, non_confidential_flow: NonConfidentialFlow, layout: &MemoryLayout) -> (r: Exit)
        requires
            non_confidential_flow.wf(),
        ensures
            r.wf(),
            r matches Exit::ToHypervisor(f) && nacl_setup_applied(
                non_confidential_flow.hardware_hart.hypervisor_hart,
                f.hardware_hart.hypervisor_hart,
                self,
                *layout,
            ),
    {
        non_confidential_flow.apply_and_exit_to_hypervisor(
            ApplyToHypervisorHart::SetSharedMemory(self),
            layout,
        )
    }
}

impl SbiResponse {
    /// Declassifies the hypervisor's answer into the confidential hart that waited for it.
    pub fn handle(self, confidential_flow: ConfidentialFlow) -> (r: Exit)
        requires
            confidential_flow.wf(),
        ensures
            r.wf(),
            resumes_with_response(r, confidential_flow, self.a0, self.a1),
    {
        confidential_flow.declassify_and_exit_to_confidential_hart(
            DeclassifyToConfidentialVm::SbiResponse(self),
        )
    }
}

/// Runs hart `hart_id` of VM `confidential_vm_id` for the hypervisor. When the hart waited for
/// an answer, the answer is declassified into it first: for an MMIO load the value in the
/// hypervisor's `a1`, for an SBI request the hypervisor's `a0` and `a1`. A hart that cannot run
/// is reported to the hypervisor as an invalid parameter.
pub fn resume_confidential_hart(
    non_confidential_flow: NonConfidentialFlow,
    storage: &mut ControlDataStorage,
    layout: &MemoryLayout,
    confidential_vm_id: ConfidentialVmId,
    hart_id: usize,
) -> (r: Exit)
    requires
        non_confidential_flow.wf(),
        old(storage).wf(),
    ensures
        r.wf(),
        final(storage).wf(),
        ({
            let enters = has_vm(old(storage).vms@, confidential_vm_id) && {
                let vm = old(storage).vms@[vm_index(*old(storage), confidential_vm_id)];
                hart_id < vm.harts@.len() && vm.harts@[hart_id as int] is Some
                    && vm.harts@[hart_id as int]->Some_0.lifecycle == HartLifecycle::Started
            };
            let hypervisor = non_confidential_flow.hardware_hart.hypervisor_hart;
            if !enters {
                &&& r matches Exit::ToHypervisor(f) && sbi_response_declassified(
                    hypervisor,
                    f.hardware_hart.hypervisor_hart,
                    sbi_error_code_of(Error::InvalidParameter()),
                    0,
                )
                &&& final(storage).vms@ == old(storage).vms@
            } else {
                let hart = old(storage).vms@[vm_index(*old(storage), confidential_vm_id)].harts@[hart_id as int]->Some_0;
                let idle = crate::hart::ConfidentialHart { resumable_operation: None, ..hart };
                r matches Exit::ToConfidentialHart(f) && f.runs_in(*final(storage))
                    && f.hardware_hart.hypervisor_hart == hypervisor && match hart.resumable_operation {
                    Some(ResumableOperation::MmioLoad(p)) => p.gpr < 32 ==> mmio_load_completed(
                        idle,
                        f.confidential_hart,
                        MmioLoadResponse {
                            value: hypervisor.gprs.regs@[GPR_A1 as int],
                            gpr: p.gpr,
                            instruction_length: p.instruction_length,
                            width: p.width,
                            signed: p.signed,
                        },
                    ),
                    Some(ResumableOperation::SbiRequest) => sbi_response_applied(
                        idle,
                        f.confidential_hart,
                        hypervisor.gprs.regs@[GPR_A0 as int],
                        hypervisor.gprs.regs@[GPR_A1 as int],
                    ),
                    Some(ResumableOperation::SharePage(a)) => sbi_response_applied(
                        idle,
                        f.confidential_hart,
                        f.confidential_hart.gprs.regs@[GPR_A0 as int],
                        0,
                    ) && (f.confidential_hart.gprs.regs@[GPR_A0 as int] == SBI_SUCCESS <==> (
                    hypervisor.gprs.regs@[GPR_A0 as int] == SBI_SUCCESS && valid_nacl_page(
                        *layout,
                        hypervisor.gprs.regs@[GPR_A1 as int],
                    ) && a % 4096 == 0 && !maps(
                        old(storage).vms@[vm_index(*old(storage), confidential_vm_id)].memory_protector.shared_pages@,
                        ConfidentialVmPhysicalAddress { address: a },
                    ))),
                    None => f.confidential_hart == hart,
                }
            }
        }),
{
    match non_confidential_flow.into_confidential_flow(storage, confidential_vm_id, hart_id) {
        Err((flow, error)) => flow.apply_and_exit_to_hypervisor(
            ApplyToHypervisorHart::SbiResponse(SbiResponse::error(error)),
            layout,
        ),
        Ok(flow) => {
            proof {
                let i = vm_index(*old(storage), confidential_vm_id);
                lemma_vm_index_unique(*storage, confidential_vm_id, i);
            }
            let mut flow = flow;
            let pending = flow.confidential_hart.resumable_operation;
            flow.confidential_hart.resumable_operation = None;
            match pending {
                Some(ResumableOperation::MmioLoad(p)) => {
                    let value = flow.hardware_hart.hypervisor_hart.gprs.read(GPR_A1);
                    if p.gpr < 32 {
                        let response = MmioLoadResponse {
                            value,
                            gpr: p.gpr,
                            instruction_length: p.instruction_length,
                            width: p.width,
                            signed: p.signed,
                        };
                        flow.declassify_and_exit_to_confidential_hart(
                            DeclassifyToConfidentialVm::MmioLoadResponse(response),
                        )
                    } else {
                        Exit::ToConfidentialHart(flow)
                    }
                },
                Some(ResumableOperation::SbiRequest) => {
                    let response = SbiResponse::from_hypervisor_hart(&flow.hardware_hart.hypervisor_hart);
                    flow.declassify_and_exit_to_confidential_hart(
                        DeclassifyToConfidentialVm::SbiResponse(response),
                    )
                },
                Some(ResumableOperation::SharePage(address)) => {
                    let status = flow.hardware_hart.hypervisor_hart.gprs.read(GPR_A0);
                    let hypervisor_address = flow.hardware_hart.hypervisor_hart.gprs.read(GPR_A1);
                    let response = if status != SBI_SUCCESS {
                        SbiResponse { a0: status, a1: 0 }
                    } else {
                        match NonConfidentialMemoryAddress::new(hypervisor_address, layout) {
                            Err(error) => SbiResponse::error(error),
                            Ok(h) => match SharedPage::new(h, ConfidentialVmPhysicalAddress::new(address), layout) {
                                Err(error) => SbiResponse::error(error),
                                Ok(page) => match flow.map_shared_page(storage, page) {
                                    Ok(()) => SbiResponse::success(),
                                    Err(error) => SbiResponse::error(error),
                                },
                            },
                        }
                    };
                    flow.declassify_and_exit_to_confidential_hart(
                        DeclassifyToConfidentialVm::SbiResponse(response),
                    )
                },
                None => Exit::ToConfidentialHart(flow),
            }
        },
    }
}

} // verus!

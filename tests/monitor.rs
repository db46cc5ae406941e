use miralis::arch::Width;
use miralis::control_data::{ConfidentialVm, ConfidentialVmId, ControlDataStorage, MmioRegion};
use miralis::error::{Error, SBI_ERR_INVALID_PARAM, SBI_ERR_NOT_SUPPORTED, SBI_SUCCESS};
use miralis::flow::{ConfidentialFlow, Exit, HardwareHart, NonConfidentialFlow};
use miralis::handle::{resume_confidential_hart, shutdown_confidential_hart};
use miralis::handlers::{
    DestroyConfidentialVm, InvalidCall, MmioLoadRequest, NaclSetupSharedMemory, NoOperation,
    RemoteFenceI, SbiGetMvendorid, SbiResponse, SharePageRequest, UnsharePageRequest,
    VirtualInstruction, COVG_EXTID, COVG_SHARE_MEMORY_FID, COVG_UNSHARE_MEMORY_FID, SRST_EXTID, SRST_SYSTEM_RESET_FID,
};
use miralis::hart::{
    HartLifecycle, HypervisorHart, MmioLoadPending, ResumableOperation, GPR_A0, GPR_A1, GPR_A6,
    GPR_A7, GPR_T0, NACL_HTINST, NACL_HTVAL,
};
use miralis::interrupt_controller::{Clint, InterruptController};
use miralis::memory_layout::MemoryLayout;
use miralis::pmp::{
    is_confidential_memory_closed, is_confidential_memory_open, PmpGroup,
};

const VM: usize = 7;

fn layout() -> MemoryLayout {
    let mut slot = None;
    MemoryLayout::init(&mut slot, 0x8000_0000, 0xC000_0000, 0x1_0000_0000, 0x1_4000_0000).unwrap();
    slot.unwrap()
}

fn hypervisor_flow() -> NonConfidentialFlow {
    NonConfidentialFlow::new(HardwareHart {
        hart_id: 0,
        hypervisor_hart: HypervisorHart::new(),
        pmp: PmpGroup::new(16),
    })
}

fn storage_with_vm(nb_harts: usize) -> ControlDataStorage {
    let mut storage = ControlDataStorage::new();
    let regions = vec![MmioRegion { start: 0x1000_0000, end: 0x1000_1000 }];
    let vm = ConfidentialVm::new(ConfidentialVmId::new(VM), nb_harts, 0x8020_0000, regions);
    storage.insert_confidential_vm(vm).unwrap();
    storage
}

fn enter(storage: &mut ControlDataStorage, hart_id: usize) -> ConfidentialFlow {
    hypervisor_flow()
        .into_confidential_flow(storage, ConfidentialVmId::new(VM), hart_id)
        .unwrap()
}

fn to_confidential(exit: Exit) -> ConfidentialFlow {
    match exit {
        Exit::ToConfidentialHart(f) => f,
        Exit::ToHypervisor(_) => panic!("expected to resume the confidential hart"),
    }
}

fn to_hypervisor(exit: Exit) -> NonConfidentialFlow {
    match exit {
        Exit::ToHypervisor(f) => f,
        Exit::ToConfidentialHart(_) => panic!("expected to resume the hypervisor"),
    }
}

#[test]
fn invalid_sbi_call_is_not_supported() {
    let mut storage = storage_with_vm(1);
    let mut flow = enter(&mut storage, 0);
    flow.confidential_hart.gprs.write(GPR_A7, 0xdead);
    flow.confidential_hart.gprs.write(GPR_A6, 0xbeef);
    flow.confidential_hart.csrs.mepc = 0x8020_1000;
    let call = InvalidCall::from_confidential_hart(&flow.confidential_hart);
    assert_eq!(call.extension_id, 0xdead);
    assert_eq!(call.function_id, 0xbeef);
    let f = to_confidential(call.handle(flow));
    assert_eq!(f.confidential_hart.gprs.read(GPR_A0), (-2isize) as usize);
    assert_eq!(f.confidential_hart.gprs.read(GPR_A0), SBI_ERR_NOT_SUPPORTED);
    assert_eq!(f.confidential_hart.gprs.read(GPR_A1), 0);
    assert_eq!(f.confidential_hart.csrs.mepc, 0x8020_1004);
}

fn mmio_load_flow(storage: &mut ControlDataStorage, address: usize) -> ConfidentialFlow {
    let mut flow = enter(storage, 0);
    flow.confidential_hart.gprs.write(GPR_A0, address);
    flow.confidential_hart.csrs.mepc = 0x8020_2000;
    flow.confidential_hart.csrs.stvec = 0x8020_0100;
    flow.confidential_hart.csrs.mcause = 5;
    flow.confidential_hart.csrs.mtval = address;
    flow.confidential_hart.csrs.mtval2 = address >> 2;
    // lw t0, 0(a0)
    flow.confidential_hart.csrs.mtinst = 0x0005_2283;
    flow
}

#[test]
fn mmio_load_in_declared_region_round_trip() {
    let mut storage = storage_with_vm(1);
    let flow = mmio_load_flow(&mut storage, 0x1000_0000);
    let request = MmioLoadRequest::from_confidential_hart(&flow.confidential_hart);
    assert_eq!(request.fault_address(), 0x1000_0000);
    assert_eq!(request.instruction_length(), 4);
    let hv = to_hypervisor(request.handle(flow, &mut storage));
    let h = &hv.hardware_hart.hypervisor_hart;
    assert_eq!(h.csrs.scause, 5);
    assert_eq!(h.csrs.stval, 0x1000_0000);
    assert_eq!(h.shared_memory.slots[NACL_HTVAL], 0x1000_0000 >> 2);
    assert_eq!(h.shared_memory.slots[NACL_HTINST], 0x0005_2283);
    let parked = storage.vms[0].harts[0].as_ref().unwrap();
    assert_eq!(
        parked.resumable_operation,
        Some(ResumableOperation::MmioLoad(MmioLoadPending {
            instruction_length: 4,
            gpr: 5,
            width: Width::Byte4,
            signed: true
        }))
    );

    let mut hv = hv;
    hv.hardware_hart.hypervisor_hart.gprs.write(GPR_A1, 0xcafe_babe);
    let l = layout();
    let f = to_confidential(resume_confidential_hart(hv, &mut storage, &l, ConfidentialVmId::new(VM), 0));
    // `lw` sign-extends the 32-bit value it reads.
    assert_eq!(f.confidential_hart.gprs.read(GPR_T0) as u64, 0xffff_ffff_cafe_babe);
    assert_eq!(f.confidential_hart.gprs.read(GPR_T0) as u32, 0xcafe_babe);
    assert_eq!(f.confidential_hart.csrs.mepc, 0x8020_2004);
    assert_eq!(f.confidential_hart.resumable_operation, None);
}

#[test]
fn mmio_load_outside_declared_region_faults() {
    let mut storage = storage_with_vm(1);
    let flow = mmio_load_flow(&mut storage, 0x2000_0000);
    let request = MmioLoadRequest::from_confidential_hart(&flow.confidential_hart);
    let f = to_confidential(request.handle(flow, &mut storage));
    assert_eq!(f.confidential_hart.csrs.scause, 5);
    assert_eq!(f.confidential_hart.csrs.stval, 0x2000_0000);
    assert_eq!(f.confidential_hart.csrs.sepc, 0x8020_2000);
    assert_eq!(f.confidential_hart.csrs.mepc, 0x8020_0100);
}

#[test]
fn share_then_unshare_memory() {
    let l = layout();
    let mut storage = storage_with_vm(1);
    let mut flow = enter(&mut storage, 0);
    flow.confidential_hart.gprs.write(GPR_A0, 0x8000_1000);
    flow.confidential_hart.gprs.write(GPR_A1, 4096);
    flow.confidential_hart.csrs.mepc = 0x200;
    let share = SharePageRequest::from_confidential_hart(&flow.confidential_hart);
    let mut hv = to_hypervisor(share.handle(flow, &mut storage));
    assert_eq!(hv.hardware_hart.hypervisor_hart.gprs.read(GPR_A7), COVG_EXTID);
    assert_eq!(hv.hardware_hart.hypervisor_hart.gprs.read(GPR_A6), COVG_SHARE_MEMORY_FID);
    assert_eq!(hv.hardware_hart.hypervisor_hart.gprs.read(GPR_A0), 0x8000_1000);
    hv.hardware_hart.hypervisor_hart.gprs.write(GPR_A0, 0);
    hv.hardware_hart.hypervisor_hart.gprs.write(GPR_A1, 0x9000_0000);
    let f = to_confidential(resume_confidential_hart(hv, &mut storage, &l, ConfidentialVmId::new(VM), 0));
    assert_eq!(f.confidential_hart.gprs.read(GPR_A0), SBI_SUCCESS);
    assert_eq!(f.confidential_hart.csrs.mepc, 0x204);
    let pages = &storage.vms[0].memory_protector.shared_pages;
    assert_eq!(pages.len(), 1);
    assert_eq!(pages[0].hypervisor_address.as_usize(), 0x9000_0000);
    assert_eq!(pages[0].confidential_vm_address.usize(), 0x8000_1000);

    let mut flow = f;
    flow.confidential_hart.gprs.write(GPR_A0, 0x8000_1000);
    flow.confidential_hart.gprs.write(GPR_A1, 4096);
    let request = UnsharePageRequest::from_confidential_hart(&flow.confidential_hart);
    let mut clint = Clint::new(4);
    let hv = to_hypervisor(request.handle(flow, &mut storage, &InterruptController::new(0), &mut clint));
    let gprs = &hv.hardware_hart.hypervisor_hart.gprs;
    assert_eq!(gprs.read(GPR_A7), COVG_EXTID);
    assert_eq!(gprs.read(GPR_A6), COVG_UNSHARE_MEMORY_FID);
    assert_eq!(gprs.read(GPR_A0), 0x8000_1000);
    assert_eq!(gprs.read(GPR_A1), 4096);
    assert_eq!(storage.vms[0].memory_protector.shared_pages.len(), 0);
    assert_eq!(storage.vms[0].inboxes[0].len(), 0);
}

#[test]
fn shared_page_from_confidential_memory_is_refused() {
    let l = layout();
    let mut storage = storage_with_vm(1);
    let mut flow = enter(&mut storage, 0);
    flow.confidential_hart.gprs.write(GPR_A0, 0x8000_1000);
    flow.confidential_hart.gprs.write(GPR_A1, 4096);
    let share = SharePageRequest::from_confidential_hart(&flow.confidential_hart);
    let mut hv = to_hypervisor(share.handle(flow, &mut storage));
    hv.hardware_hart.hypervisor_hart.gprs.write(GPR_A0, 0);
    hv.hardware_hart.hypervisor_hart.gprs.write(GPR_A1, 0x1_0000_0000);
    let f = to_confidential(resume_confidential_hart(hv, &mut storage, &l, ConfidentialVmId::new(VM), 0));
    assert_eq!(
        f.confidential_hart.gprs.read(GPR_A0),
        Error::AddressNotInNonConfidentialMemory().sbi_error_code()
    );
    assert_eq!(storage.vms[0].memory_protector.shared_pages.len(), 0);
}

#[test]
fn unshare_rejects_misaligned_and_unknown_pages() {
    let mut storage = storage_with_vm(1);
    let mut flow = enter(&mut storage, 0);
    flow.confidential_hart.gprs.write(GPR_A0, 0x8000_1004);
    flow.confidential_hart.gprs.write(GPR_A1, 4096);
    let request = UnsharePageRequest::from_confidential_hart(&flow.confidential_hart);
    let mut f = to_confidential(request.handle(flow, &mut storage, &InterruptController::new(0), &mut Clint::new(1)));
    assert_eq!(
        f.confidential_hart.gprs.read(GPR_A0),
        Error::AddressNotAligned().sbi_error_code()
    );
    f.confidential_hart.gprs.write(GPR_A0, 0x8000_1000);
    f.confidential_hart.gprs.write(GPR_A1, 8192);
    let request = UnsharePageRequest::from_confidential_hart(&f.confidential_hart);
    let mut f = to_confidential(request.handle(f, &mut storage, &InterruptController::new(0), &mut Clint::new(1)));
    assert_eq!(f.confidential_hart.gprs.read(GPR_A0), SBI_ERR_INVALID_PARAM);
    f.confidential_hart.gprs.write(GPR_A0, 0x8000_1000);
    f.confidential_hart.gprs.write(GPR_A1, 4096);
    let request = UnsharePageRequest::from_confidential_hart(&f.confidential_hart);
    let f = to_confidential(request.handle(f, &mut storage, &InterruptController::new(0), &mut Clint::new(1)));
    assert_eq!(f.confidential_hart.gprs.read(GPR_A0), SBI_ERR_INVALID_PARAM);
}

#[test]
fn system_reset_shuts_harts_down_and_removes_vm() {
    let mut storage = storage_with_vm(2);
    assert!(storage.vms[0].harts[1].as_mut().unwrap().start());
    let flow = enter(&mut storage, 0);
    let hv = to_hypervisor(shutdown_confidential_hart(flow, &mut storage));
    let gprs = &hv.hardware_hart.hypervisor_hart.gprs;
    assert_eq!(gprs.read(GPR_A7), SRST_EXTID);
    assert_eq!(gprs.read(GPR_A6), SRST_SYSTEM_RESET_FID);
    assert_eq!(storage.vms.len(), 1);
    assert_eq!(storage.vms[0].harts[0].as_ref().unwrap().lifecycle, HartLifecycle::Shutdown);
    assert_eq!(
        storage.remove_confidential_vm(ConfidentialVmId::new(VM)),
        Err(Error::InvalidParameter())
    );

    let flow = hv.into_confidential_flow(&mut storage, ConfidentialVmId::new(VM), 1).unwrap();
    let _ = to_hypervisor(shutdown_confidential_hart(flow, &mut storage));
    assert_eq!(storage.vms.len(), 0);
}

#[test]
fn removal_needs_every_hart_shut_down() {
    let mut storage = storage_with_vm(2);
    let id = ConfidentialVmId::new(VM);
    assert_eq!(storage.remove_confidential_vm(id), Err(Error::InvalidParameter()));
    storage.vms[0].harts[0].as_mut().unwrap().shutdown();
    assert_eq!(storage.remove_confidential_vm(id), Err(Error::InvalidParameter()));
    storage.vms[0].harts[1].as_mut().unwrap().shutdown();
    assert_eq!(storage.remove_confidential_vm(id), Ok(()));
    assert_eq!(storage.remove_confidential_vm(id), Err(Error::InvalidParameter()));
}

#[test]
fn removal_fails_while_a_hart_runs() {
    let mut storage = storage_with_vm(1);
    let flow = enter(&mut storage, 0);
    assert!(storage.vms[0].harts[0].is_none());
    assert_eq!(
        storage.remove_confidential_vm(ConfidentialVmId::new(VM)),
        Err(Error::InvalidParameter())
    );
    let _ = flow.into_non_confidential_flow(&mut storage);
    assert!(storage.vms[0].harts[0].is_some());
}

#[test]
fn destroy_confidential_vm_answers_hypervisor() {
    let l = layout();
    let mut storage = storage_with_vm(1);
    let mut hv = hypervisor_flow();
    hv.hardware_hart.hypervisor_hart.gprs.write(GPR_A0, VM);
    let destroy = DestroyConfidentialVm::from_hypervisor_hart(&hv.hardware_hart.hypervisor_hart);
    let hv = to_hypervisor(destroy.handle(hv, &mut storage, &l));
    assert_eq!(hv.hardware_hart.hypervisor_hart.gprs.read(GPR_A0), SBI_ERR_INVALID_PARAM);
    assert_eq!(hv.hardware_hart.hypervisor_hart.csrs.mepc, 4);
    storage.vms[0].harts[0].as_mut().unwrap().shutdown();
    let hv = to_hypervisor(destroy.handle(hv, &mut storage, &l));
    assert_eq!(hv.hardware_hart.hypervisor_hart.gprs.read(GPR_A0), SBI_SUCCESS);
    assert_eq!(storage.vms.len(), 0);
}

#[test]
fn entering_a_missing_or_stopped_hart_fails() {
    let mut storage = storage_with_vm(2);
    let hv = hypervisor_flow();
    let (hv, e) = hv
        .into_confidential_flow(&mut storage, ConfidentialVmId::new(VM + 1), 0)
        .err()
        .unwrap();
    assert_eq!(e, Error::InvalidParameter());
    let (_, e) = hv.into_confidential_flow(&mut storage, ConfidentialVmId::new(VM), 1).err().unwrap();
    assert_eq!(e, Error::InvalidParameter());
}

#[test]
fn pmp_window_closed_outside_confidential_flow() {
    let mut storage = storage_with_vm(1);
    let hv = hypervisor_flow();
    assert!(is_confidential_memory_closed(hv.hardware_hart.pmp.pmpcfg0));
    let flow = hv.into_confidential_flow(&mut storage, ConfidentialVmId::new(VM), 0).unwrap();
    assert!(is_confidential_memory_open(flow.hardware_hart.pmp.pmpcfg0));
    assert_eq!((flow.hardware_hart.pmp.pmpcfg0 >> 40) & 0xff, 0b1111);
    let hv = flow.into_non_confidential_flow(&mut storage);
    assert!(is_confidential_memory_closed(hv.hardware_hart.pmp.pmpcfg0));
    assert_eq!((hv.hardware_hart.pmp.pmpcfg0 >> 35) & 0b11, 0);
    assert_eq!((hv.hardware_hart.pmp.pmpcfg0 >> 43) & 0b11, 0);
}

#[test]
fn mmio_declassification_copies_only_named_fields() {
    let mut storage = storage_with_vm(1);
    let mut hv = hypervisor_flow();
    for r in 0..32 {
        hv.hardware_hart.hypervisor_hart.gprs.write(r, 1000 + r);
    }
    hv.hardware_hart.hypervisor_hart.csrs.mepc = 0x100;
    let mut flow = hv.into_confidential_flow(&mut storage, ConfidentialVmId::new(VM), 0).unwrap();
    for r in 0..32 {
        flow.confidential_hart.gprs.write(r, 0x5ec2e7 + r);
    }
    flow.confidential_hart.csrs.mcause = 5;
    flow.confidential_hart.csrs.mtval = 0x1000_0008;
    flow.confidential_hart.csrs.mtval2 = 0x1000_0008 >> 2;
    flow.confidential_hart.csrs.mtinst = 0x0005_2283;
    flow.confidential_hart.csrs.sepc = 0x5ec2e7;
    let request = MmioLoadRequest::from_confidential_hart(&flow.confidential_hart);
    let hv = to_hypervisor(request.handle(flow, &mut storage));
    let h = &hv.hardware_hart.hypervisor_hart;
    for r in 0..32 {
        if r != GPR_A0 && r != GPR_A1 {
            assert_eq!(h.gprs.read(r), 1000 + r);
        }
    }
    assert_eq!(h.gprs.read(GPR_A0), 0);
    assert_eq!(h.gprs.read(GPR_A1), 0);
    assert_eq!(h.csrs.mepc, 0x104);
    for s in 2..h.shared_memory.slots.len() {
        assert_eq!(h.shared_memory.slots[s], 0);
    }
}

#[test]
fn sbi_response_is_declassified_into_waiting_hart() {
    let mut storage = storage_with_vm(1);
    let mut flow = enter(&mut storage, 0);
    flow.confidential_hart.csrs.mepc = 0x10;
    let mut h = HypervisorHart::new();
    h.gprs.write(GPR_A0, 0);
    h.gprs.write(GPR_A1, 42);
    let response = SbiResponse::from_hypervisor_hart(&h);
    let f = to_confidential(response.handle(flow));
    assert_eq!(f.confidential_hart.gprs.read(GPR_A1), 42);
    assert_eq!(f.confidential_hart.csrs.mepc, 0x14);
}

#[test]
fn base_extension_and_no_operation_answer_success() {
    let mut storage = storage_with_vm(1);
    let flow = enter(&mut storage, 0);
    let get = SbiGetMvendorid::from_confidential_hart(&flow.confidential_hart);
    let f = to_confidential(get.handle(flow, 0x489));
    assert_eq!(f.confidential_hart.gprs.read(GPR_A0), SBI_SUCCESS);
    assert_eq!(f.confidential_hart.gprs.read(GPR_A1), 0x489);
    let nop = NoOperation::from_confidential_hart(&f.confidential_hart);
    let f = to_confidential(nop.handle(f));
    assert_eq!(f.confidential_hart.gprs.read(GPR_A1), 0);
    assert_eq!(f.confidential_hart.csrs.mepc, 0x8020_0008);
}

#[test]
fn remote_fence_i_reaches_selected_peers_in_order() {
    let mut storage = storage_with_vm(3);
    let mut flow = enter(&mut storage, 0);
    flow.confidential_hart.gprs.write(GPR_A0, 0b110);
    flow.confidential_hart.gprs.write(GPR_A1, 0);
    let fence = RemoteFenceI::from_confidential_hart(&flow.confidential_hart);
    assert!(!fence.is_hart_selected(0));
    assert!(fence.is_hart_selected(1));
    assert!(fence.is_hart_selected(2));
    let ic = InterruptController::new(0);
    let mut clint = Clint::new(4);
    let f = to_confidential(fence.handle(flow, &mut storage, &ic, &mut clint));
    assert_eq!(f.confidential_hart.gprs.read(GPR_A0), SBI_SUCCESS);
    assert_eq!(storage.vms[0].inboxes[0].len(), 0);
    assert_eq!(storage.vms[0].inboxes[1].len(), 1);
    assert_eq!(storage.vms[0].inboxes[2].len(), 1);
    let f = to_confidential(fence.handle(f, &mut storage, &ic, &mut clint));
    assert_eq!(clint.msip, vec![0, 0, 0, 0]);
    assert_eq!(storage.vms[0].inboxes[1].len(), 2);
    let hv = f.into_non_confidential_flow(&mut storage);
    assert!(storage.vms[0].harts[1].as_mut().unwrap().start());
    let peer = hv.into_confidential_flow(&mut storage, ConfidentialVmId::new(VM), 1).unwrap();
    assert_eq!(peer.remote_commands.len(), 2);
    assert_eq!(storage.vms[0].inboxes[1].len(), 0);
}

#[test]
fn virtual_wfi_is_skipped_and_others_trap() {
    let mut storage = storage_with_vm(1);
    let mut flow = enter(&mut storage, 0);
    flow.confidential_hart.csrs.mtval = 0x1050_0073;
    flow.confidential_hart.csrs.mepc = 0x100;
    let wfi = VirtualInstruction::from_confidential_hart(&flow.confidential_hart);
    assert_eq!(wfi.instruction_length, 4);
    let mut f = to_confidential(wfi.handle(flow));
    assert_eq!(f.confidential_hart.csrs.mepc, 0x104);
    f.confidential_hart.csrs.mtval = 0x3020_0073;
    f.confidential_hart.csrs.stvec = 0x800;
    let other = VirtualInstruction::from_confidential_hart(&f.confidential_hart);
    let f = to_confidential(other.handle(f));
    assert_eq!(f.confidential_hart.csrs.scause, 2);
    assert_eq!(f.confidential_hart.csrs.stval, 0x3020_0073);
    assert_eq!(f.confidential_hart.csrs.sepc, 0x104);
    assert_eq!(f.confidential_hart.csrs.mepc, 0x800);
}

#[test]
fn nacl_shared_memory_must_be_non_confidential() {
    let l = layout();
    let mut hv = hypervisor_flow();
    hv.hardware_hart.hypervisor_hart.gprs.write(GPR_A0, 0x1_0000_0000);
    let setup = NaclSetupSharedMemory::from_hypervisor_hart(&hv.hardware_hart.hypervisor_hart);
    let mut hv = to_hypervisor(setup.handle(hv, &l));
    assert_eq!(
        hv.hardware_hart.hypervisor_hart.gprs.read(GPR_A0),
        Error::AddressNotInNonConfidentialMemory().sbi_error_code()
    );
    assert_eq!(hv.hardware_hart.hypervisor_hart.shared_memory.base_address, None);
    hv.hardware_hart.hypervisor_hart.gprs.write(GPR_A0, 0x9000_0000);
    let setup = NaclSetupSharedMemory::from_hypervisor_hart(&hv.hardware_hart.hypervisor_hart);
    let hv = to_hypervisor(setup.handle(hv, &l));
    assert_eq!(hv.hardware_hart.hypervisor_hart.gprs.read(GPR_A0), SBI_SUCCESS);
    assert_eq!(hv.hardware_hart.hypervisor_hart.shared_memory.base_address, Some(0x9000_0000));
}

fn enter_on(storage: &mut ControlDataStorage, physical_hart: usize, hart_id: usize) -> ConfidentialFlow {
    NonConfidentialFlow::new(HardwareHart {
        hart_id: physical_hart,
        hypervisor_hart: HypervisorHart::new(),
        pmp: PmpGroup::new(16),
    })
    .into_confidential_flow(storage, ConfidentialVmId::new(VM), hart_id)
    .unwrap()
}

#[test]
fn remote_fence_i_interrupts_the_hart_running_a_peer() {
    let mut storage = storage_with_vm(2);
    assert!(storage.vms[0].harts[1].as_mut().unwrap().start());
    let _peer = enter_on(&mut storage, 2, 1);
    assert_eq!(storage.vms[0].running_on, vec![None, Some(2)]);
    let mut flow = enter(&mut storage, 0);
    flow.confidential_hart.gprs.write(GPR_A0, 0b10);
    flow.confidential_hart.gprs.write(GPR_A1, 0);
    let fence = RemoteFenceI::from_confidential_hart(&flow.confidential_hart);
    let mut clint = Clint::new(4);
    let f = to_confidential(fence.handle(flow, &mut storage, &InterruptController::new(0), &mut clint));
    assert_eq!(f.confidential_hart.gprs.read(GPR_A0), SBI_SUCCESS);
    assert_eq!(clint.msip, vec![0, 0, 1, 0]);
    assert_eq!(storage.vms[0].inboxes[1].len(), 1);
}

#[test]
fn remote_fence_i_reports_an_undeliverable_interrupt() {
    let mut storage = storage_with_vm(2);
    assert!(storage.vms[0].harts[1].as_mut().unwrap().start());
    let _peer = enter_on(&mut storage, 5, 1);
    let mut flow = enter(&mut storage, 0);
    flow.confidential_hart.gprs.write(GPR_A0, 0b10);
    flow.confidential_hart.gprs.write(GPR_A1, 0);
    let fence = RemoteFenceI::from_confidential_hart(&flow.confidential_hart);
    let mut clint = Clint::new(2);
    let f = to_confidential(fence.handle(flow, &mut storage, &InterruptController::new(0), &mut clint));
    assert_eq!(
        f.confidential_hart.gprs.read(GPR_A0),
        Error::InterruptSendingError(1).sbi_error_code()
    );
    assert_eq!(clint.msip, vec![0, 0]);
}

#[test]
fn mmio_unsigned_load_is_zero_extended() {
    let l = layout();
    let mut storage = storage_with_vm(1);
    let mut flow = mmio_load_flow(&mut storage, 0x1000_0000);
    // lwu t0, 0(a0)
    flow.confidential_hart.csrs.mtinst = 0x0005_6283;
    let request = MmioLoadRequest::from_confidential_hart(&flow.confidential_hart);
    let mut hv = to_hypervisor(request.handle(flow, &mut storage));
    hv.hardware_hart.hypervisor_hart.gprs.write(GPR_A1, 0xcafe_babe);
    let f = to_confidential(resume_confidential_hart(hv, &mut storage, &l, ConfidentialVmId::new(VM), 0));
    assert_eq!(f.confidential_hart.gprs.read(GPR_T0), 0xcafe_babe);
}

#[test]
fn mmio_byte_load_is_sign_extended() {
    let l = layout();
    let mut storage = storage_with_vm(1);
    let mut flow = mmio_load_flow(&mut storage, 0x1000_0000);
    // lb t0, 0(a0)
    flow.confidential_hart.csrs.mtinst = 0x0005_0283;
    let request = MmioLoadRequest::from_confidential_hart(&flow.confidential_hart);
    let mut hv = to_hypervisor(request.handle(flow, &mut storage));
    hv.hardware_hart.hypervisor_hart.gprs.write(GPR_A1, 0x1_0080);
    let f = to_confidential(resume_confidential_hart(hv, &mut storage, &l, ConfidentialVmId::new(VM), 0));
    assert_eq!(f.confidential_hart.gprs.read(GPR_T0) as u64, 0xffff_ffff_ffff_ff80);
}

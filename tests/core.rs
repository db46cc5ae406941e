use miralis::arch::{parse_mpp_return_mode, ExecutionMode, HardwareCapability, Mode, Width};
use miralis::decode::{decode_result_register, length_of_instruction};
use miralis::error::Error;
use miralis::interrupt_controller::{Clint, InterruptController, IPI_NO_SUCH_HART};
use miralis::memory_layout::{ConfidentialMemoryAddress, MemoryLayout, NonConfidentialMemoryAddress};
use miralis::mtvec;
use miralis::page_allocator::{Page, PageAllocator};
use miralis::page_size::PageSize;
use miralis::pmp::{
    is_confidential_memory_closed, split_memory_into_confidential_and_non_confidential,
    MiralisContext,
};
use miralis::shared_page::{MemoryProtector, SharedPage};
use miralis::memory_layout::ConfidentialVmPhysicalAddress;
use miralis::flow::HardwareHart;
use miralis::hart::HypervisorHart;
use miralis::monitor_switch::{overwrite_hardware_hart_with_virtctx, overwrite_virtctx_with_hardware_hart};
use miralis::pmp::PmpGroup;
use miralis::policy::DefaultPolicy;
use miralis::virt::{handle_trap, TrapOutcome, VirtContext};
use miralis::virt_csr::{Architecture, Csr, HostArch, SIE_FILTER, SSTATUS_FILTER};

const GIB: usize = 0x4000_0000;

fn layout_with(c_start: usize, c_end: usize) -> MemoryLayout {
    let mut slot = None;
    MemoryLayout::init(&mut slot, 0x4000_0000, 0x8000_0000, c_start, c_end).unwrap();
    slot.unwrap()
}

fn allocator(c_start: usize, c_end: usize) -> PageAllocator {
    let l = layout_with(c_start, c_end);
    let mut slot = None;
    PageAllocator::initialize(&mut slot, &l, ConfidentialMemoryAddress::new(c_start), c_end).unwrap();
    slot.unwrap()
}

#[test]
fn allocator_splits_and_merges_over_eight_gib() {
    let mut a = allocator(4 * GIB, 12 * GIB);
    let big = a.acquire_page(PageSize::Size1GiB).unwrap();
    assert_eq!(big.start_address(), 4 * GIB);
    assert_eq!(big.size(), PageSize::Size1GiB);
    let small = a.acquire_page(PageSize::Size4KiB).unwrap();
    assert_eq!(small.start_address(), 5 * GIB);
    a.release_pages(vec![big, small]);
    let again = a.acquire_page(PageSize::Size1GiB).unwrap();
    assert_eq!(again.start_address(), 4 * GIB);
}

#[test]
fn acquired_pages_are_disjoint_and_inside_memory() {
    let start = 0x1_0000_0000;
    let end = start + 0x40_0000;
    let mut a = allocator(start, end);
    let mut pages: Vec<Page> = Vec::new();
    for _ in 0..3 {
        pages.push(a.acquire_page(PageSize::Size4KiB).unwrap());
    }
    pages.push(a.acquire_page(PageSize::Size2MiB).unwrap());
    for p in &pages {
        assert!(p.start_address() >= start);
        assert!(p.start_address() + p.size().in_bytes() <= end);
        assert_eq!(p.start_address() % p.size().in_bytes(), 0);
    }
    for (i, p) in pages.iter().enumerate() {
        for q in pages.iter().skip(i + 1) {
            let p_end = p.start_address() + p.size().in_bytes();
            let q_end = q.start_address() + q.size().in_bytes();
            assert!(p_end <= q.start_address() || q_end <= p.start_address());
        }
    }
    assert_eq!(pages[3].start_address(), start + 0x20_0000);
    assert_eq!(a.acquire_page(PageSize::Size2MiB).unwrap_err(), Error::OutOfPages());
}

#[test]
fn released_siblings_merge_into_their_parent() {
    let start = 0x1_0000_0000;
    let mut a = allocator(start, start + 0x20_0000);
    let mut pages: Vec<Page> = Vec::new();
    for _ in 0..512 {
        pages.push(a.acquire_page(PageSize::Size4KiB).unwrap());
    }
    assert_eq!(a.acquire_page(PageSize::Size4KiB).unwrap_err(), Error::OutOfPages());
    assert_eq!(a.acquire_page(PageSize::Size2MiB).unwrap_err(), Error::OutOfPages());
    let last = pages.pop().unwrap();
    a.release_pages(pages);
    assert_eq!(a.acquire_page(PageSize::Size2MiB).unwrap_err(), Error::OutOfPages());
    a.store_page_token(last);
    let parent = a.acquire_page(PageSize::Size2MiB).unwrap();
    assert_eq!(parent.start_address(), start);
}

#[test]
fn unaligned_memory_yields_only_small_pages() {
    let start = 0x1_0000_1000;
    let mut a = allocator(start, start + 0x20_0000);
    assert_eq!(a.acquire_page(PageSize::Size2MiB).unwrap_err(), Error::OutOfPages());
    let p = a.acquire_page(PageSize::Size4KiB).unwrap();
    assert_eq!(p.start_address(), start);
}

#[test]
fn empty_allocator_has_no_pages() {
    let mut a = PageAllocator::empty();
    assert_eq!(a.acquire_page_token(PageSize::Size4KiB).unwrap_err(), Error::OutOfPages());
}

#[test]
fn allocator_initialized_once_inside_confidential_memory() {
    let l = layout_with(0x1_0000_0000, 0x1_0010_0000);
    let mut slot = None;
    let outside = PageAllocator::initialize(&mut slot, &l, ConfidentialMemoryAddress::new(0x1_0000_0000), 0x1_0020_0000);
    assert_eq!(outside, Err(Error::AddressNotInConfidentialMemory()));
    assert!(slot.is_none());
    PageAllocator::initialize(&mut slot, &l, ConfidentialMemoryAddress::new(0x1_0000_0000), 0x1_0010_0000).unwrap();
    let again = PageAllocator::initialize(&mut slot, &l, ConfidentialMemoryAddress::new(0x1_0000_0000), 0x1_0010_0000);
    assert_eq!(again, Err(Error::Reinitialization()));
}

#[test]
fn memory_layout_aligns_and_trims_confidential_memory() {
    let mut slot = None;
    let (start, end) = MemoryLayout::init(&mut slot, 0x1000, 0x8000, 0x1_0000_0010, 0x1_0000_5010).unwrap();
    assert_eq!(start.as_usize(), 0x1_0000_1000);
    assert_eq!(end, 0x1_0000_5000);
    let l = slot.unwrap();
    assert_eq!(l.confidential_memory_boundary(), (0x1_0000_1000, 0x1_0000_5000));
    let mut slot = Some(l);
    assert_eq!(
        MemoryLayout::init(&mut slot, 0x1000, 0x8000, 0x1_0000_0000, 0x1_0001_0000),
        Err(Error::Reinitialization())
    );
    let mut empty = None;
    assert_eq!(
        MemoryLayout::init(&mut empty, 0x1000, 0x8000, 0x1_0000_0010, 0x1_0000_0800),
        Err(Error::NotEnoughMemory())
    );
}

#[test]
fn memory_layout_offsets_stay_inside_their_window() {
    let l = layout_with(0x1_0000_0000, 0x1_0000_4000);
    let a = ConfidentialMemoryAddress::new(0x1_0000_0000);
    assert_eq!(l.confidential_address_at_offset(&a, 0x3fff).unwrap().as_usize(), 0x1_0000_3fff);
    assert_eq!(l.confidential_address_at_offset(&a, 0x4000), Err(Error::AddressNotInConfidentialMemory()));
    assert_eq!(
        l.confidential_address_at_offset_bounded(&a, 0x1000, 0x1_0000_1000),
        Err(Error::AddressNotInConfidentialMemory())
    );
    assert_eq!(
        l.confidential_address_at_offset_bounded(&a, 0x10, 0x1_0000_8000),
        Err(Error::AddressNotInConfidentialMemory())
    );
    assert_eq!(l.confidential_address_at_offset_bounded(&a, 0xfff, 0x1_0000_1000).unwrap().as_usize(), 0x1_0000_0fff);
    let n = NonConfidentialMemoryAddress::new(0x7fff_f000, &l).unwrap();
    assert_eq!(l.non_confidential_address_at_offset(&n, 0xfff).unwrap().as_usize(), 0x7fff_ffff);
    assert_eq!(l.non_confidential_address_at_offset(&n, 0x1000), Err(Error::AddressNotInNonConfidentialMemory()));
    assert!(l.is_in_non_confidential_range(0x4000_0000));
    assert!(!l.is_in_non_confidential_range(0x8000_0000));
    assert_eq!(NonConfidentialMemoryAddress::new(0x8000_0000, &l), Err(Error::AddressNotInNonConfidentialMemory()));
}

#[test]
fn shared_page_must_fit_in_non_confidential_memory() {
    let l = layout_with(0x1_0000_0000, 0x1_0000_4000);
    let last = NonConfidentialMemoryAddress::new(0x7fff_f800, &l).unwrap();
    let page = SharedPage::new(last, ConfidentialVmPhysicalAddress::new(0x1000), &l);
    assert_eq!(page, Err(Error::AddressNotInNonConfidentialMemory()));
    let ok = NonConfidentialMemoryAddress::new(0x7fff_f000, &l).unwrap();
    let page = SharedPage::new(ok, ConfidentialVmPhysicalAddress::new(0x1000), &l).unwrap();
    assert_eq!(page.page_size(), PageSize::Size4KiB);
}

#[test]
fn map_then_unmap_restores_page_table() {
    let l = layout_with(0x1_0000_0000, 0x1_0000_4000);
    let mut m = MemoryProtector::new();
    let first = SharedPage::new(NonConfidentialMemoryAddress::new(0x5000_0000, &l).unwrap(), ConfidentialVmPhysicalAddress::new(0x2000), &l).unwrap();
    m.map_shared_page(first).unwrap();
    let before = m.shared_pages.clone();
    let second = SharedPage::new(NonConfidentialMemoryAddress::new(0x5000_1000, &l).unwrap(), ConfidentialVmPhysicalAddress::new(0x3000), &l).unwrap();
    m.map_shared_page(second).unwrap();
    assert_eq!(m.map_shared_page(second), Err(Error::InvalidParameter()));
    let misaligned = SharedPage::new(NonConfidentialMemoryAddress::new(0x5000_1000, &l).unwrap(), ConfidentialVmPhysicalAddress::new(0x3008), &l).unwrap();
    assert_eq!(m.map_shared_page(misaligned), Err(Error::AddressNotAligned()));
    assert_eq!(m.unmap_shared_page(&ConfidentialVmPhysicalAddress::new(0x3000)), Ok(PageSize::Size4KiB));
    assert_eq!(m.shared_pages, before);
    assert_eq!(m.unmap_shared_page(&ConfidentialVmPhysicalAddress::new(0x3000)), Err(Error::InvalidParameter()));
}

fn capability(nb_pmp: usize) -> HardwareCapability {
    HardwareCapability {
        interrupts: usize::MAX,
        available_reg: miralis::arch::RegistersCapability { menvcfg: true, senvcfg: true, nb_pmp },
        extensions: miralis::arch::ExtensionsCapability {
            has_h_extension: false,
            has_s_extension: true,
            has_f_extension: false,
            has_d_extension: false,
            has_q_extension: false,
        },
        hart: 0,
    }
}

#[test]
fn pmp_split_reserves_entries_four_and_five() {
    let mut m = MiralisContext::new(capability(16));
    m.pmp.pmpcfg0 = u64::MAX;
    let flush = split_memory_into_confidential_and_non_confidential(&mut m, 0x1_0000_0000, 0x2_0000_0000).unwrap();
    assert!(flush.sfence_vma && flush.hfence_gvma);
    assert_eq!(m.pmp.pmpaddr[4], 0x1_0000_0000 >> 2);
    assert_eq!(m.pmp.pmpaddr[5], 0x2_0000_0000 >> 2);
    assert!(is_confidential_memory_closed(m.pmp.pmpcfg0));
    assert_eq!((m.pmp.pmpcfg0 >> 32) & 0b111, 0b111);
    let mut few = MiralisContext::new(capability(3));
    assert_eq!(
        split_memory_into_confidential_and_non_confidential(&mut few, 0, 0x1000),
        Err(Error::NotEnoughPmps())
    );
}

#[test]
fn csr_write_then_read_keeps_legal_bits() {
    let mut arch = HostArch::new();
    arch.write_csr(Csr::Mscratch, 0x1234_5678_9abc_def0);
    assert_eq!(arch.read_csr(Csr::Mscratch), 0x1234_5678_9abc_def0);
    arch.write_csr(Csr::Sstatus, u64::MAX);
    assert_eq!(arch.read_csr(Csr::Sstatus), u64::MAX & SSTATUS_FILTER);
    arch.write_csr(Csr::Sie, u64::MAX);
    assert_eq!(arch.read_csr(Csr::Sie), SIE_FILTER);
    assert_eq!(arch.read_csr(Csr::Mie), SIE_FILTER);
    arch.write_csr(Csr::Sip, 0b10);
    assert_eq!(arch.read_csr(Csr::Sip), 0b10);
    arch.write_csr(Csr::Pmpaddr(63), 7);
    assert_eq!(arch.read_csr(Csr::Pmpaddr(63)), 7);
    let previous = arch.write_csr(Csr::Pmpaddr(63), 9);
    assert_eq!(previous, 7);
    arch.write_csr(Csr::Hgeip, 5);
    assert_eq!(arch.read_csr(Csr::Hgeip), 0);
    arch.set_csr_bits(Csr::Medeleg, 0b1010);
    arch.clear_csr_bits(Csr::Medeleg, 0b10);
    assert_eq!(arch.read_csr(Csr::Medeleg), 0b1000);
    assert_eq!(arch.set_mpp(Mode::S), Mode::U);
    assert_eq!(arch.set_mpp(Mode::M), Mode::S);
    assert_eq!((arch.read_csr(Csr::Mstatus) >> 11) & 0b11, 3);
}

fn mctx() -> MiralisContext {
    MiralisContext::new(capability(16))
}

#[test]
fn handle_trap_state() {
    let mut m = mctx();
    let mut arch = HostArch::new();
    let mut ctx = VirtContext::new(0);
    ctx.mode = Mode::M;
    ctx.csr.mstatus = 0;
    ctx.csr.mie = 0b1;
    ctx.csr.mideleg = 0;
    ctx.csr.mtvec = 0x80200024;
    ctx.trap_info.mepc = 0x80200042;
    ctx.trap_info.mstatus = 0b10000000;
    ctx.trap_info.mcause = 3;
    ctx.trap_info.mip = 0b1;
    ctx.trap_info.mtval = 0;
    arch.write_csr(Csr::Mie, 0b1);
    arch.write_csr(Csr::Mip, 0b1);
    arch.write_csr(Csr::Mideleg, 0);
    let outcome = handle_trap(&mut ctx, &mut m, &mut arch, &mut DefaultPolicy::init(), None);
    assert_eq!(outcome, TrapOutcome::Handled { world_switch: false });
    assert_eq!(arch.read_csr(Csr::Mideleg), 0, "mideleg must be 0");
    assert_eq!(arch.read_csr(Csr::Mie), 0b1, "mie must be 1");
    assert_eq!(ctx.pc, 0x80200024, "pc must be at handler start");
    assert_eq!(ctx.csr.mip, 0b1, "mip must to be updated");
    assert_eq!(ctx.csr.mie, 1, "mie must not change");
    assert_eq!(ctx.csr.mideleg, 0, "mideleg must not change");
    assert_eq!(ctx.csr.mepc, 0x80200042);
    assert_eq!(
        (ctx.csr.mstatus & (1 << 7)) >> 7,
        0b1,
        "mstatus.MPIE must be set to trap_info.mstatus.MPIE"
    );
}

#[test]
fn world_switch_commits_pmp() {
    let mut m = mctx();
    split_memory_into_confidential_and_non_confidential(&mut m, 0x1_0000_0000, 0x2_0000_0000).unwrap();
    let mut arch = HostArch::new();
    let mut ctx = VirtContext::new(0);
    ctx.csr.mepc = 0x8020_0000;
    ctx.csr.mstatus = 1 << 11;
    ctx.trap_info.mcause = 2;
    ctx.trap_info.mtval = 0x3020_0073;
    let outcome = handle_trap(&mut ctx, &mut m, &mut arch, &mut DefaultPolicy::init(), None);
    assert_eq!(outcome, TrapOutcome::Handled { world_switch: true });
    assert_eq!(arch.read_csr(Csr::Pmpaddr(4)), 0x1_0000_0000 >> 2);
    assert_eq!(arch.read_csr(Csr::Pmpaddr(5)), 0x2_0000_0000 >> 2);
    assert_eq!(arch.read_csr(Csr::Pmpcfg(0)), m.pmp.pmpcfg0);
    ctx.trap_info.mcause = 3;
    ctx.mode = Mode::M;
    let mut untouched = HostArch::new();
    let outcome = handle_trap(&mut ctx, &mut m, &mut untouched, &mut DefaultPolicy::init(), None);
    assert_eq!(outcome, TrapOutcome::Handled { world_switch: false });
    assert_eq!(untouched.read_csr(Csr::Pmpaddr(4)), 0);
}

#[test]
fn mhartid_is_the_hart_id_and_read_only() {
    let ctx = VirtContext::new(3);
    assert_eq!(ctx.csr.read(Csr::Mhartid), 3);
    let mut arch = HostArch::new();
    arch.write_csr(Csr::Mhartid, 9);
    assert_eq!(arch.read_csr(Csr::Mhartid), 0);
    assert_eq!(arch.read_csr(Csr::Marchid), 0);
}

#[test]
fn exits_are_counted_once_per_handled_trap() {
    let mut ctx = VirtContext::new(0);
    ctx.csr.mtvec = 0x100;
    for n in 1..=3u64 {
        assert!(matches!(handle_trap(&mut ctx, &mut mctx(), &mut HostArch::new(), &mut DefaultPolicy::init(), None), TrapOutcome::Handled { .. }));
        assert_eq!(ctx.nb_exits, n);
    }
    ctx.trap_info.mstatus = 0b11 << 11;
    assert_eq!(handle_trap(&mut ctx, &mut mctx(), &mut HostArch::new(), &mut DefaultPolicy::init(), None), TrapOutcome::MonitorFault);
    assert_eq!(ctx.nb_exits, 3);
    ctx.trap_info.mstatus = 0;
    assert_eq!(handle_trap(&mut ctx, &mut mctx(), &mut HostArch::new(), &mut DefaultPolicy::init(), Some(4)), TrapOutcome::ExitLimitReached);
    assert_eq!(ctx.nb_exits, 3);
    assert!(matches!(handle_trap(&mut ctx, &mut mctx(), &mut HostArch::new(), &mut DefaultPolicy::init(), Some(5)), TrapOutcome::Handled { .. }));
    assert_eq!(ctx.nb_exits, 4);
}

#[test]
fn firmware_csr_instructions_are_emulated() {
    let mut ctx = VirtContext::new(0);
    ctx.trap_info.mcause = 2;
    ctx.trap_info.mepc = 0x8000_0000;
    ctx.regs[6] = 0xabc;
    // csrrw x5, mscratch, x6
    ctx.trap_info.mtval = (0x340 << 20) | (6 << 15) | (1 << 12) | (5 << 7) | 0x73;
    handle_trap(&mut ctx, &mut mctx(), &mut HostArch::new(), &mut DefaultPolicy::init(), None);
    assert_eq!(ctx.csr.mscratch, 0xabc);
    assert_eq!(ctx.regs[5], 0);
    assert_eq!(ctx.pc, 0x8000_0004);
    // csrrs x7, mscratch, x0 reads without writing
    ctx.trap_info.mtval = (0x340 << 20) | (2 << 12) | (7 << 7) | 0x73;
    handle_trap(&mut ctx, &mut mctx(), &mut HostArch::new(), &mut DefaultPolicy::init(), None);
    assert_eq!(ctx.regs[7], 0xabc);
    // csrrci x0, mscratch, 0b1100
    ctx.trap_info.mtval = (0x340 << 20) | (0b1100 << 15) | (7 << 12) | 0x73;
    handle_trap(&mut ctx, &mut mctx(), &mut HostArch::new(), &mut DefaultPolicy::init(), None);
    assert_eq!(ctx.csr.mscratch, 0xab0);
}

#[test]
fn firmware_mret_enters_payload() {
    let mut ctx = VirtContext::new(0);
    ctx.csr.mepc = 0x8020_0000;
    ctx.csr.mstatus = 1 << 11;
    ctx.trap_info.mcause = 2;
    ctx.trap_info.mtval = 0x3020_0073;
    let outcome = handle_trap(&mut ctx, &mut mctx(), &mut HostArch::new(), &mut DefaultPolicy::init(), None);
    assert_eq!(outcome, TrapOutcome::Handled { world_switch: true });
    assert_eq!(ctx.mode, Mode::S);
    assert_eq!(ctx.pc, 0x8020_0000);
    ctx.csr.mtvec = 0x8000_0100;
    ctx.trap_info.mcause = 9;
    ctx.trap_info.mepc = 0x8020_0010;
    let outcome = handle_trap(&mut ctx, &mut mctx(), &mut HostArch::new(), &mut DefaultPolicy::init(), None);
    assert_eq!(outcome, TrapOutcome::Handled { world_switch: true });
    assert_eq!(ctx.mode, Mode::M);
    assert_eq!(ctx.pc, 0x8000_0100);
    assert_eq!((ctx.csr.mstatus >> 11) & 0b11, 1);
}

#[test]
fn instruction_lengths_come_from_the_low_bits() {
    assert_eq!(length_of_instruction(0x0005_2283), 4);
    assert_eq!(length_of_instruction(0x4108), 2);
    assert_eq!(length_of_instruction(0x001f), 6);
    assert_eq!(length_of_instruction(0x003f), 10);
    assert_eq!(length_of_instruction(0x207f), 14);
    assert_eq!(decode_result_register(0x0005_2283), Ok(5));
    assert_eq!(decode_result_register(0x0055_2023), Err(Error::InvalidParameter()));
}

#[test]
fn modes_and_widths() {
    assert_eq!(parse_mpp_return_mode(0), Mode::U);
    assert_eq!(parse_mpp_return_mode(1 << 11), Mode::S);
    assert_eq!(parse_mpp_return_mode(3 << 11), Mode::M);
    assert_eq!(Mode::S.to_bits(), 1);
    assert_eq!(Mode::M.to_exec_mode(), ExecutionMode::Firmware);
    assert_eq!(Mode::U.to_exec_mode(), ExecutionMode::Payload);
    assert_eq!(Width::Byte4.to_bits(), 32);
    assert_eq!(Width::Byte8.to_bytes(), 8);
    assert_eq!(Width::from_bits(16), Some(Width::Byte2));
    assert_eq!(Width::from_bits(12), None);
    assert_eq!(mtvec::get_mode(0x8000_0001), mtvec::Mode::Vectored);
    assert_eq!(mtvec::get_mode(0x8000_0000), mtvec::Mode::Direct);
}

#[test]
fn page_sizes() {
    assert_eq!(PageSize::Size2MiB.in_bytes(), 0x20_0000);
    assert_eq!(PageSize::Size1GiB.number_of_smaller_pages(), 512);
    assert_eq!(PageSize::Size4KiB.smaller(), None);
    assert_eq!(PageSize::Size4KiB.larger(), Some(PageSize::Size2MiB));
    assert_eq!(PageSize::smallest(), PageSize::Size4KiB);
    assert_eq!(PageSize::largest(), PageSize::Size1GiB);
}

#[test]
fn ipi_goes_to_other_harts_only() {
    let mut clint = Clint::new(4);
    let ic = InterruptController::new(1);
    assert_eq!(ic.send_ipi(&mut clint, 1), Ok(()));
    assert_eq!(clint.msip, vec![0, 0, 0, 0]);
    assert_eq!(ic.send_ipi(&mut clint, 3), Ok(()));
    assert_eq!(clint.msip, vec![0, 0, 0, 1]);
    assert_eq!(ic.send_ipi(&mut clint, 9), Err(Error::InterruptSendingError(IPI_NO_SUCH_HART)));
}

#[test]
fn error_codes_are_stable() {
    assert_eq!(Error::InvalidCall(1, 2).sbi_error_code(), (-2isize) as usize);
    assert_eq!(Error::InvalidParameter().sbi_error_code(), (-3isize) as usize);
    assert_eq!(Error::AddressNotInConfidentialMemory().sbi_error_code(), (-4isize) as usize);
    assert_eq!(Error::OutOfPages().sbi_error_code(), (-1isize) as usize);
    assert_eq!(Error::TooMuchMemory().sbi_error_code(), (-1isize) as usize);
}

#[test]
fn shut_down_hart_cannot_restart() {
    let mut hart = miralis::hart::ConfidentialHart::new(0, 0x1000);
    assert_eq!(hart.lifecycle, miralis::hart::HartLifecycle::Stopped);
    assert!(hart.start());
    assert!(hart.start());
    assert_eq!(hart.lifecycle, miralis::hart::HartLifecycle::Started);
    hart.shutdown();
    assert!(!hart.start());
    assert_eq!(hart.lifecycle, miralis::hart::HartLifecycle::Shutdown);
}

#[test]
fn registers_move_between_virtual_context_and_hardware_hart() {
    let mut ctx = VirtContext::new(0);
    for i in 0..32 {
        ctx.regs[i] = 100 + i as u64;
    }
    let mut hw = HardwareHart { hart_id: 0, hypervisor_hart: HypervisorHart::new(), pmp: PmpGroup::new(16) };
    overwrite_hardware_hart_with_virtctx(&mut hw, &ctx);
    assert_eq!(hw.hypervisor_hart.gprs.read(31), 131);
    hw.hypervisor_hart.gprs.write(3, 7);
    let mut m = mctx();
    overwrite_virtctx_with_hardware_hart(&mut ctx, &mut m, &hw, 0x4000, 0x8000, 0xf0f);
    assert_eq!(ctx.regs[3], 7);
    assert_eq!(ctx.regs[4], 104);
    assert_eq!(m.pmp.pmpaddr[4], 0x4000);
    assert_eq!(m.pmp.pmpaddr[5], 0x8000);
    assert_eq!(m.pmp.pmpcfg0, 0xf0f);
}

#[test]
fn pmp_is_committed_to_the_registers() {
    let mut arch = HostArch::new();
    let mut m = mctx();
    split_memory_into_confidential_and_non_confidential(&mut m, 0x1_0000_0000, 0x2_0000_0000).unwrap();
    let flush = arch.write_pmp(&m.pmp);
    assert!(flush.sfence_vma && flush.hfence_gvma);
    assert_eq!(arch.read_csr(Csr::Pmpaddr(4)), 0x1_0000_0000 >> 2);
    assert_eq!(arch.read_csr(Csr::Pmpaddr(5)), 0x2_0000_0000 >> 2);
    assert_eq!(arch.read_csr(Csr::Pmpcfg(0)), m.pmp.pmpcfg0);
}

#[test]
fn faulting_instruction_and_capabilities() {
    let mut ctx = VirtContext::new(0);
    ctx.trap_info.mcause = 2;
    ctx.trap_info.mtval = 0x3020_0073;
    assert_eq!(HostArch::get_raw_faulting_instr(&ctx.trap_info), Some(0x3020_0073));
    ctx.trap_info.mtval = 0;
    assert_eq!(HostArch::get_raw_faulting_instr(&ctx.trap_info), None);
    let hw = HostArch::detect_hardware();
    assert_eq!(hw.available_reg.nb_pmp, 16);
    assert!(hw.extensions.has_s_extension && !hw.extensions.has_h_extension);
}

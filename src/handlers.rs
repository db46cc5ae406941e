use vstd::prelude::*;

use crate::arch::Width;
use crate::control_data::{ConfidentialHartRemoteCommand, ConfidentialVmId, Ipi};
use crate::decode::{length_of_instruction, instruction_length_of, ECALL_INSTRUCTION_LENGTH};
use crate::error::{sbi_error_code_of, Error, SBI_SUCCESS};
use crate::hart::{
    ConfidentialHart, ConfidentialHartCsrs, HypervisorHart, HypervisorHartCsrs, GPR_A0, GPR_A1,
    GPR_A6, GPR_A7, NACL_HTINST, NACL_HTVAL,
};
use crate::memory_layout::{MemoryLayout, NonConfidentialMemoryAddress};
use crate::shared_page::SHARED_PAGE_BYTES;

verus! {

/// Exception code of an illegal instruction.
pub const CAUSE_ILLEGAL_INSTRUCTION: usize = 2;

/// Exception code of a load access fault.
pub const CAUSE_LOAD_ACCESS: usize = 5;

/// SBI extension id of the CoVE guest extension.
pub const COVG_EXTID: usize = 0x434F_5647;

/// CoVE guest function that shares a page with the hypervisor.
pub const COVG_SHARE_MEMORY_FID: usize = 0;

/// CoVE guest function that stops sharing a page with the hypervisor.
pub const COVG_UNSHARE_MEMORY_FID: usize = 1;

/// SBI extension id of system reset.
pub const SRST_EXTID: usize = 0x5352_5354;

/// System reset function of the SRST extension.
pub const SRST_SYSTEM_RESET_FID: usize = 0;

// ------------------------------------------------------------------ what each transformation changes

/// `new` is the confidential hart `old` with `a0`, `a1` set and `mepc` moved past the `ecall`;
/// nothing else differs.
pub open spec fn sbi_response_applied(
    old: ConfidentialHart,
    new: ConfidentialHart,
    a0: usize,
    a1: usize,
) -> bool {
    &&& new.id == old.id
    &&& new.gprs.regs@ == old.gprs.regs@.update(GPR_A0 as int, a0).update(GPR_A1 as int, a1)
    &&& new.csrs == (ConfidentialHartCsrs {
        mepc: old.csrs.mepc.wrapping_add(ECALL_INSTRUCTION_LENGTH),
        ..old.csrs
    })
    &&& new.lifecycle == old.lifecycle
    &&& new.resumable_operation == old.resumable_operation
}

/// `new` is the hypervisor hart `old` with `a0`, `a1` set and `mepc` moved past the `ecall`;
/// nothing else differs.
pub open spec fn sbi_response_declassified(
    old: HypervisorHart,
    new: HypervisorHart,
    a0: usize,
    a1: usize,
) -> bool {
    &&& new.gprs.regs@ == old.gprs.regs@.update(GPR_A0 as int, a0).update(GPR_A1 as int, a1)
    &&& new.csrs == (HypervisorHartCsrs {
        mepc: old.csrs.mepc.wrapping_add(ECALL_INSTRUCTION_LENGTH),
        ..old.csrs
    })
    &&& new.shared_memory.slots@ == old.shared_memory.slots@
    &&& new.shared_memory.base_address == old.shared_memory.base_address
}

// ------------------------------------------------------------------ SBI response

/// The result of an SBI call: the error code in `a0` and a value in `a1`.
#[derive(Clone, Copy, Debug, PartialEq, Eq, Structural)]
pub struct SbiResponse {
    pub a0: usize,
    pub a1: usize,
}

impl SbiResponse {
    /// The hypervisor's answer, from its `a0` and `a1`.
    pub fn from_hypervisor_hart(hypervisor_hart: &HypervisorHart) -> (r: Self)
        requires
            hypervisor_hart.wf(),
        ensures
            r.a0 == hypervisor_hart.gprs.regs@[GPR_A0 as int],
            r.a1 == hypervisor_hart.gprs.regs@[GPR_A1 as int],
    {
        SbiResponse {
            a0: hypervisor_hart.gprs.read(GPR_A0),
            a1: hypervisor_hart.gprs.read(GPR_A1),
        }
    }

    /// Gives the response to a confidential hart; the same as `apply_to_confidential_hart`.
    pub fn declassify_to_confidential_hart(&self, confidential_hart: &mut ConfidentialHart)
        requires
            old(confidential_hart).wf(),
        ensures
            final(confidential_hart).wf(),
            sbi_response_applied(*old(confidential_hart), *final(confidential_hart), self.a0, self.a1),
    {
        self.apply_to_confidential_hart(confidential_hart);
    }

    /// Writes `a0` and `a1` of the confidential hart and moves its `mepc` past the `ecall`.
    pub fn apply_to_confidential_hart(&self, confidential_hart: &mut ConfidentialHart)
        requires
            old(confidential_hart).wf(),
        ensures
            final(confidential_hart).wf(),
            sbi_response_applied(*old(confidential_hart), *final(confidential_hart), self.a0, self.a1),
    {
        confidential_hart.gprs.write(GPR_A0, self.a0);
        confidential_hart.gprs.write(GPR_A1, self.a1);
        confidential_hart.csrs.mepc = confidential_hart.csrs.mepc.wrapping_add(
            ECALL_INSTRUCTION_LENGTH,
        );
    }

    /// Writes `a0` and `a1` of the hypervisor hart and moves its `mepc` past the `ecall`.
    pub fn declassify_to_hypervisor_hart(&self, hypervisor_hart: &mut HypervisorHart)
        requires
            old(hypervisor_hart).wf(),
        ensures
            final(hypervisor_hart).wf(),
            sbi_response_declassified(*old(hypervisor_hart), *final(hypervisor_hart), self.a0, self.a1),
    {
        hypervisor_hart.gprs.write(GPR_A0, self.a0);
        hypervisor_hart.gprs.write(GPR_A1, self.a1);
        hypervisor_hart.csrs.mepc = hypervisor_hart.csrs.mepc.wrapping_add(ECALL_INSTRUCTION_LENGTH);
    }

    /// Answers the hypervisor's own call; the same effect as `declassify_to_hypervisor_hart`.
    pub fn apply_to_hypervisor_hart(&self, hypervisor_hart: &mut HypervisorHart)
        requires
            old(hypervisor_hart).wf(),
        ensures
            final(hypervisor_hart).wf(),
            sbi_response_declassified(*old(hypervisor_hart), *final(hypervisor_hart), self.a0, self.a1),
    {
        self.declassify_to_hypervisor_hart(hypervisor_hart);
    }

    pub fn success() -> (r: Self)
        ensures
            r == (SbiResponse { a0: SBI_SUCCESS, a1: 0 }),
    {
        Self::success_with_code(0)
    }

    pub fn success_with_code(code: usize) -> (r: Self)
        ensures
            r == (SbiResponse { a0: SBI_SUCCESS, a1: code }),
    {
        SbiResponse { a0: SBI_SUCCESS, a1: code }
    }

    pub fn error(error: Error) -> (r: Self)
        ensures
            r == (SbiResponse { a0: sbi_error_code_of(error), a1: 0 }),
    {
        SbiResponse { a0: error.sbi_error_code(), a1: 0 }
    }
}

// ------------------------------------------------------------------ SBI request

/// An SBI call that the monitor passes on to the hypervisor: extension, function and two
/// arguments.
#[derive(Clone, Copy, Debug, PartialEq, Eq, Structural)]
pub struct SbiRequest {
    pub extension_id: usize,
    pub function_id: usize,
    pub a0: usize,
    pub a1: usize,
}

/// `new` is the hypervisor hart `old` with `a7`, `a6`, `a0`, `a1` set from `request`; nothing
/// else differs.
pub open spec fn sbi_request_declassified(
    old: HypervisorHart,
    new: HypervisorHart,
    request: SbiRequest,
) -> bool {
    &&& new.gprs.regs@ == old.gprs.regs@.update(GPR_A7 as int, request.extension_id).update(
        GPR_A6 as int,
        request.function_id,
    ).update(GPR_A0 as int, request.a0).update(GPR_A1 as int, request.a1)
    &&& new.csrs == old.csrs
    &&& new.shared_memory.slots@ == old.shared_memory.slots@
    &&& new.shared_memory.base_address == old.shared_memory.base_address
}

impl SbiRequest {
    pub fn new(extension_id: usize, function_id: usize, a0: usize, a1: usize) -> (r: Self)
        ensures
            r == (SbiRequest { extension_id, function_id, a0, a1 }),
    {
        SbiRequest { extension_id, function_id, a0, a1 }
    }

    pub fn declassify_to_hypervisor_hart(&self, hypervisor_hart: &mut HypervisorHart)
        requires
            old(hypervisor_hart).wf(),
        ensures
            final(hypervisor_hart).wf(),
            sbi_request_declassified(*old(hypervisor_hart), *final(hypervisor_hart), *self),
    {
        hypervisor_hart.gprs.write(GPR_A7, self.extension_id);
        hypervisor_hart.gprs.write(GPR_A6, self.function_id);
        hypervisor_hart.gprs.write(GPR_A0, self.a0);
        hypervisor_hart.gprs.write(GPR_A1, self.a1);
    }
}

// ------------------------------------------------------------------ trap injection

/// A trap injected into the confidential hart: it enters its own trap vector with `scause`,
/// `stval` and `sepc` describing the fault.
#[derive(Clone, Copy, Debug, PartialEq, Eq, Structural)]
pub struct MmioAccessFault {
    pub cause: usize,
    pub mtval: usize,
    pub instruction_length: usize,
}

/// `new` is `old` after `fault` entered its trap vector; nothing else differs.
pub open spec fn trap_injected(old: ConfidentialHart, new: ConfidentialHart, fault: MmioAccessFault) -> bool {
    &&& new.id == old.id
    &&& new.gprs.regs@ == old.gprs.regs@
    &&& new.csrs == (ConfidentialHartCsrs {
        scause: fault.cause,
        stval: fault.mtval,
        sepc: old.csrs.mepc,
        mepc: old.csrs.stvec,
        ..old.csrs
    })
    &&& new.lifecycle == old.lifecycle
    &&& new.resumable_operation == old.resumable_operation
}

impl MmioAccessFault {
    pub fn new(cause: usize, mtval: usize, instruction_length: usize) -> (r: Self)
        ensures
            r == (MmioAccessFault { cause, mtval, instruction_length }),
    {
        MmioAccessFault { cause, mtval, instruction_length }
    }

    pub fn apply_to_confidential_hart(&self, confidential_hart: &mut ConfidentialHart)
        requires
            old(confidential_hart).wf(),
        ensures
            final(confidential_hart).wf(),
            trap_injected(*old(confidential_hart), *final(confidential_hart), *self),
    {
        confidential_hart.csrs.scause = self.cause;
        confidential_hart.csrs.stval = self.mtval;
        confidential_hart.csrs.sepc = confidential_hart.csrs.mepc;
        confidential_hart.csrs.mepc = confidential_hart.csrs.stvec;
    }
}

// ------------------------------------------------------------------ virtual instruction

/// A virtual-instruction trap of a confidential hart: the instruction from `mtval` and its
/// length.
#[derive(Clone, Copy, Debug, PartialEq, Eq, Structural)]
pub struct VirtualInstruction {
    pub instruction: usize,
    pub instruction_length: usize,
}

/// `new` is `old` with `mepc` moved past the emulated instruction; nothing else differs.
pub open spec fn instruction_skipped(old: ConfidentialHart, new: ConfidentialHart, length: usize) -> bool {
    &&& new.id == old.id
    &&& new.gprs.regs@ == old.gprs.regs@
    &&& new.csrs == (ConfidentialHartCsrs { mepc: old.csrs.mepc.wrapping_add(length), ..old.csrs })
    &&& new.lifecycle == old.lifecycle
    &&& new.resumable_operation == old.resumable_operation
}

impl VirtualInstruction {
    pub fn from_confidential_hart(confidential_hart: &ConfidentialHart) -> (r: Self)
        ensures
            r.instruction == confidential_hart.csrs.mtval,
            r.instruction_length == instruction_length_of(confidential_hart.csrs.mtval as u16),
    {
        let instruction = confidential_hart.csrs.mtval;
        VirtualInstruction { instruction, instruction_length: length_of_instruction(instruction) }
    }

    pub fn apply_to_confidential_hart(&self, confidential_hart: &mut ConfidentialHart)
        ensures
            instruction_skipped(*old(confidential_hart), *final(confidential_hart), self.instruction_length),
            final(confidential_hart).wf() == old(confidential_hart).wf(),
    {
        confidential_hart.csrs.mepc = confidential_hart.csrs.mepc.wrapping_add(self.instruction_length);
    }
}

// ------------------------------------------------------------------ MMIO

/// An MMIO load of a confidential hart, as the trap described it.
#[derive(Clone, Copy, Debug, PartialEq, Eq, Structural)]
pub struct MmioLoadRequest {
    pub mcause: usize,
    pub mtval: usize,
    pub mtval2: usize,
    pub mtinst: usize,
}

/// `new` is the hypervisor hart `old` after `request` was declassified to it: `scause`,
/// `stval`, the `htval` and `htinst` slots of the NACL shared memory, and a successful SBI
/// response; nothing else differs.
pub open spec fn mmio_load_declassified(
    old: HypervisorHart,
    new: HypervisorHart,
    request: MmioLoadRequest,
) -> bool {
    &&& new.gprs.regs@ == old.gprs.regs@.update(GPR_A0 as int, SBI_SUCCESS).update(GPR_A1 as int, 0)
    &&& new.csrs == (HypervisorHartCsrs {
        scause: request.mcause,
        stval: request.mtval,
        mepc: old.csrs.mepc.wrapping_add(ECALL_INSTRUCTION_LENGTH),
    })
    &&& new.shared_memory.slots@ == old.shared_memory.slots@.update(NACL_HTVAL as int, request.mtval2).update(
        NACL_HTINST as int,
        request.mtinst,
    )
    &&& new.shared_memory.base_address == old.shared_memory.base_address
}

impl MmioLoadRequest {
    pub fn from_confidential_hart(confidential_hart: &ConfidentialHart) -> (r: Self)
        ensures
            r == (MmioLoadRequest {
                mcause: confidential_hart.csrs.mcause,
                mtval: confidential_hart.csrs.mtval,
                mtval2: confidential_hart.csrs.mtval2,
                mtinst: confidential_hart.csrs.mtinst,
            }),
    {
        MmioLoadRequest {
            mcause: confidential_hart.csrs.mcause,
            mtval: confidential_hart.csrs.mtval,
            mtval2: confidential_hart.csrs.mtval2,
            mtinst: confidential_hart.csrs.mtinst,
        }
    }

    /// The guest-physical address of the access: `mtval2` holds it shifted right by two, and
    /// `mtval` supplies the low two bits.
    pub open spec fn fault_address_spec(&self) -> usize {
        (self.mtval2 << 2usize) | (self.mtval & 0b11)
    }

    pub fn fault_address(&self) -> (r: usize)
        ensures
            r == self.fault_address_spec(),
    {
        (self.mtval2 << 2usize) | (self.mtval & 0b11)
    }

    /// The instruction that `mtinst` describes, as a full 32-bit encoding.
    pub open spec fn instruction_spec(&self) -> usize {
        self.mtinst | 0b11
    }

    /// Length of the faulting instruction: 2 when `mtinst` does not hold a full instruction
    /// (bit 0 clear), else decoded from the instruction.
    pub open spec fn instruction_length_spec(&self) -> usize {
        if self.mtinst & 1 == 0 {
            2
        } else {
            instruction_length_of(self.instruction_spec() as u16)
        }
    }

    pub fn instruction_length(&self) -> (r: usize)
        ensures
            r == self.instruction_length_spec(),
    {
        if self.mtinst & 1 == 0 {
            2
        } else {
            length_of_instruction(self.mtinst | 0b11)
        }
    }

    pub fn declassify_to_hypervisor_hart(&self, hypervisor_hart: &mut HypervisorHart)
        requires
            old(hypervisor_hart).wf(),
        ensures
            final(hypervisor_hart).wf(),
            mmio_load_declassified(*old(hypervisor_hart), *final(hypervisor_hart), *self),
    {
        hypervisor_hart.csrs.scause = self.mcause;
        hypervisor_hart.csrs.stval = self.mtval;
        hypervisor_hart.shared_memory.write_csr(NACL_HTVAL, self.mtval2);
        hypervisor_hart.shared_memory.write_csr(NACL_HTINST, self.mtinst);
        SbiResponse::success().declassify_to_hypervisor_hart(hypervisor_hart);
    }
}

/// The hypervisor's answer to an MMIO load: the value read, and how the load that waits for it
/// places it.
#[derive(Clone, Copy, Debug, PartialEq, Eq, Structural)]
pub struct MmioLoadResponse {
    pub value: usize,
    pub gpr: usize,
    pub instruction_length: usize,
    pub width: Width,
    pub signed: bool,
}

/// `value` cut to `width` and then sign- or zero-extended to 64 bits.
pub open spec fn extend_load(value: u64, width: Width, signed: bool) -> u64 {
    match width {
        Width::Byte8 => value,
        Width::Byte4 => if signed && (value >> 31u64) & 1 == 1 {
            value | 0xFFFF_FFFF_0000_0000
        } else {
            value & 0xFFFF_FFFF
        },
        Width::Byte2 => if signed && (value >> 15u64) & 1 == 1 {
            value | 0xFFFF_FFFF_FFFF_0000
        } else {
            value & 0xFFFF
        },
        Width::Byte => if signed && (value >> 7u64) & 1 == 1 {
            value | 0xFFFF_FFFF_FFFF_FF00
        } else {
            value & 0xFF
        },
    }
}

/// Sign- or zero-extends the low `width` bytes of `value`.
pub fn extend_loaded_value(value: u64, width: Width, signed: bool) -> (r: u64)
    ensures
        r == extend_load(value, width, signed),
{
    match width {
        Width::Byte8 => value,
        Width::Byte4 => if signed && (value >> 31u64) & 1 == 1 {
            value | 0xFFFF_FFFF_0000_0000
        } else {
            value & 0xFFFF_FFFF
        },
        Width::Byte2 => if signed && (value >> 15u64) & 1 == 1 {
            value | 0xFFFF_FFFF_FFFF_0000
        } else {
            value & 0xFFFF
        },
        Width::Byte => if signed && (value >> 7u64) & 1 == 1 {
            value | 0xFFFF_FFFF_FFFF_FF00
        } else {
            value & 0xFF
        },
    }
}

/// `new` is `old` with the loaded value, extended as the load asks, in the destination register, `mepc` past the load, and
/// nothing pending; nothing else differs.
pub open spec fn mmio_load_completed(old: ConfidentialHart, new: ConfidentialHart, response: MmioLoadResponse) -> bool {
    &&& new.id == old.id
    &&& new.gprs.regs@ == old.gprs.regs@.update(
        response.gpr as int,
        extend_load(response.value as u64, response.width, response.signed) as usize,
    )
    &&& new.csrs == (ConfidentialHartCsrs {
        mepc: old.csrs.mepc.wrapping_add(response.instruction_length),
        ..old.csrs
    })
    &&& new.lifecycle == old.lifecycle
    &&& new.resumable_operation is None
}

impl MmioLoadResponse {
    pub fn declassify_to_confidential_hart(&self, confidential_hart: &mut ConfidentialHart)
        requires
            old(confidential_hart).wf(),
            self.gpr < 32,
        ensures
            final(confidential_hart).wf(),
            mmio_load_completed(*old(confidential_hart), *final(confidential_hart), *self),
    {
        let value = extend_loaded_value(self.value as u64, self.width, self.signed);
        confidential_hart.gprs.write(self.gpr, value as usize);
        confidential_hart.csrs.mepc = confidential_hart.csrs.mepc.wrapping_add(self.instruction_length);
        confidential_hart.resumable_operation = None;
    }
}

// ------------------------------------------------------------------ NACL

/// The hypervisor registers the page of non-confidential memory where it exchanges CSRs with
/// the monitor.
#[derive(Clone, Copy, Debug, PartialEq, Eq, Structural)]
pub struct NaclSetupSharedMemory {
    pub shared_memory_base_address: usize,
}

/// A shared-memory page for the hypervisor must lie entirely in non-confidential memory.
pub open spec fn valid_nacl_page(layout: MemoryLayout, address: usize) -> bool {
    layout.in_non_confidential(address as int) && address + 4095 < layout.non_confidential_memory_end
}

/// `new` is the hypervisor hart `old` after it asked to set up its NACL shared memory at
/// `request`: the page is recorded when it lies in non-confidential memory, and the answer is
/// success or the error; nothing else differs.
pub open spec fn nacl_setup_applied(
    old: HypervisorHart,
    new: HypervisorHart,
    request: NaclSetupSharedMemory,
    layout: MemoryLayout,
) -> bool {
    let valid = valid_nacl_page(layout, request.shared_memory_base_address);
    &&& new.shared_memory.slots@ == old.shared_memory.slots@
    &&& new.shared_memory.base_address == if valid {
        Some(request.shared_memory_base_address)
    } else {
        old.shared_memory.base_address
    }
    &&& new.gprs.regs@ == old.gprs.regs@.update(
        GPR_A0 as int,
        if valid {
            SBI_SUCCESS
        } else {
            sbi_error_code_of(Error::AddressNotInNonConfidentialMemory())
        },
    ).update(GPR_A1 as int, 0)
    &&& new.csrs == (HypervisorHartCsrs {
        mepc: old.csrs.mepc.wrapping_add(ECALL_INSTRUCTION_LENGTH),
        ..old.csrs
    })
}

impl NaclSetupSharedMemory {
    pub fn from_hypervisor_hart(hypervisor_hart: &HypervisorHart) -> (r: Self)
        requires
            hypervisor_hart.wf(),
        ensures
            r.shared_memory_base_address == hypervisor_hart.gprs.regs@[GPR_A0 as int],
    {
        NaclSetupSharedMemory { shared_memory_base_address: hypervisor_hart.gprs.read(GPR_A0) }
    }

    /// Records the page when it lies in non-confidential memory and answers with success;
    /// otherwise answers with the error and records nothing.
    pub fn apply_to_hypervisor_hart(&self, hypervisor_hart: &mut HypervisorHart, layout: &MemoryLayout)
        requires
            old(hypervisor_hart).wf(),
        ensures
            final(hypervisor_hart).wf(),
            nacl_setup_applied(*old(hypervisor_hart), *final(hypervisor_hart), *self, *layout),
    {
        let response = match NonConfidentialMemoryAddress::new(self.shared_memory_base_address, layout) {
            Ok(address) => match layout.non_confidential_address_at_offset(&address, SHARED_PAGE_BYTES - 1) {
                Ok(_) => {
                    hypervisor_hart.shared_memory.base_address = Some(self.shared_memory_base_address);
                    SbiResponse::success()
                },
                Err(error) => SbiResponse::error(error),
            },
            Err(error) => SbiResponse::error(error),
        };
        response.apply_to_hypervisor_hart(hypervisor_hart);
    }
}

// ------------------------------------------------------------------ calls answered in place

/// An SBI call that the monitor does not know.
#[derive(Clone, Copy, Debug, PartialEq, Eq, Structural)]
pub struct InvalidCall {
    pub extension_id: usize,
    pub function_id: usize,
}

impl InvalidCall {
    pub fn from_confidential_hart(confidential_hart: &ConfidentialHart) -> (r: Self)
        requires
            confidential_hart.wf(),
        ensures
            r.extension_id == confidential_hart.gprs.regs@[GPR_A7 as int],
            r.function_id == confidential_hart.gprs.regs@[GPR_A6 as int],
    {
        InvalidCall {
            extension_id: confidential_hart.gprs.read(GPR_A7),
            function_id: confidential_hart.gprs.read(GPR_A6),
        }
    }
}

/// The base-extension call that returns the host's `mvendorid`.
#[derive(Clone, Copy, Debug, PartialEq, Eq, Structural)]
pub struct SbiGetMvendorid {}

impl SbiGetMvendorid {
    pub fn from_confidential_hart(_confidential_hart: &ConfidentialHart) -> (r: Self) {
        SbiGetMvendorid {}
    }
}

/// Remote-fence calls needed only for nested virtualisation, answered with success.
#[derive(Clone, Copy, Debug, PartialEq, Eq, Structural)]
pub struct NoOperation {}

impl NoOperation {
    pub fn from_confidential_hart(_confidential_hart: &ConfidentialHart) -> (r: Self) {
        NoOperation {}
    }
}

/// A request to run `fence.i` on the confidential harts that `a0` (mask) and `a1` (base)
/// select.
#[derive(Clone, Copy, Debug, PartialEq, Eq, Structural)]
pub struct RemoteFenceI {
    pub ipi: Ipi,
}

impl RemoteFenceI {
    pub fn from_confidential_hart(confidential_hart: &ConfidentialHart) -> (r: Self)
        requires
            confidential_hart.wf(),
        ensures
            r.ipi == (Ipi {
                hart_mask: confidential_hart.gprs.regs@[GPR_A0 as int],
                hart_mask_base: confidential_hart.gprs.regs@[GPR_A1 as int],
            }),
    {
        RemoteFenceI {
            ipi: Ipi {
                hart_mask: confidential_hart.gprs.read(GPR_A0),
                hart_mask_base: confidential_hart.gprs.read(GPR_A1),
            },
        }
    }

    pub fn is_hart_selected(&self, hart_id: usize) -> (r: bool)
        ensures
            r == self.ipi.selects(hart_id),
    {
        self.ipi.is_hart_selected(hart_id)
    }

    pub fn command(&self) -> (r: ConfidentialHartRemoteCommand)
        ensures
            r == ConfidentialHartRemoteCommand::RemoteFenceI(self.ipi),
    {
        ConfidentialHartRemoteCommand::RemoteFenceI(self.ipi)
    }
}

/// A request of a confidential VM to share the page at guest address `a0` of size `a1` with
/// the hypervisor.
#[derive(Clone, Copy, Debug, PartialEq, Eq, Structural)]
pub struct SharePageRequest {
    pub address: usize,
    pub size: usize,
}

impl SharePageRequest {
    pub fn from_confidential_hart(confidential_hart: &ConfidentialHart) -> (r: Self)
        requires
            confidential_hart.wf(),
        ensures
            r.address == confidential_hart.gprs.regs@[GPR_A0 as int],
            r.size == confidential_hart.gprs.regs@[GPR_A1 as int],
    {
        SharePageRequest {
            address: confidential_hart.gprs.read(GPR_A0),
            size: confidential_hart.gprs.read(GPR_A1),
        }
    }

    pub open spec fn share_page_sbi_request_spec(&self) -> SbiRequest {
        SbiRequest {
            extension_id: COVG_EXTID,
            function_id: COVG_SHARE_MEMORY_FID,
            a0: self.address,
            a1: self.size,
        }
    }

    /// The request passed on to the hypervisor, which answers with the page it provides.
    pub fn share_page_sbi_request(&self) -> (r: SbiRequest)
        ensures
            r == self.share_page_sbi_request_spec(),
    {
        SbiRequest::new(COVG_EXTID, COVG_SHARE_MEMORY_FID, self.address, self.size)
    }
}

/// A request of a confidential VM to stop sharing the page at guest address `a0` of size `a1`.
#[derive(Clone, Copy, Debug, PartialEq, Eq, Structural)]
pub struct UnsharePageRequest {
    pub address: usize,
    pub size: usize,
}

impl UnsharePageRequest {
    pub fn from_confidential_hart(confidential_hart: &ConfidentialHart) -> (r: Self)
        requires
            confidential_hart.wf(),
        ensures
            r.address == confidential_hart.gprs.regs@[GPR_A0 as int],
            r.size == confidential_hart.gprs.regs@[GPR_A1 as int],
    {
        UnsharePageRequest {
            address: confidential_hart.gprs.read(GPR_A0),
            size: confidential_hart.gprs.read(GPR_A1),
        }
    }

    /// The request passed on to the hypervisor once the page is unmapped.
    pub fn unshare_page_sbi_request(&self) -> (r: SbiRequest)
        ensures
            r == (SbiRequest {
                extension_id: COVG_EXTID,
                function_id: COVG_UNSHARE_MEMORY_FID,
                a0: self.address,
                a1: self.size,
            }),
    {
        SbiRequest::new(COVG_EXTID, COVG_UNSHARE_MEMORY_FID, self.address, self.size)
    }
}

/// The hypervisor's request to destroy the confidential VM with identifier `a0`.
#[derive(Clone, Copy, Debug, PartialEq, Eq, Structural)]
pub struct DestroyConfidentialVm {
    pub confidential_vm_id: ConfidentialVmId,
}

impl DestroyConfidentialVm {
    pub fn from_hypervisor_hart(hypervisor_hart: &HypervisorHart) -> (r: Self)
        requires
            hypervisor_hart.wf(),
        ensures
            r.confidential_vm_id.id == hypervisor_hart.gprs.regs@[GPR_A0 as int],
    {
        DestroyConfidentialVm {
            confidential_vm_id: ConfidentialVmId::new(hypervisor_hart.gprs.read(GPR_A0)),
        }
    }
}

} // verus!

use vstd::prelude::*;

use crate::arch::Width;

verus! {

/// Number of general purpose registers.
pub const GPR_COUNT: usize = 32;

/// Index of register `t0` (`x5`).
pub const GPR_T0: usize = 5;

/// Index of register `a0` (`x10`).
pub const GPR_A0: usize = 10;

/// Index of register `a1` (`x11`).
pub const GPR_A1: usize = 11;

/// Index of register `a6` (`x16`).
pub const GPR_A6: usize = 16;

/// Index of register `a7` (`x17`).
pub const GPR_A7: usize = 17;

/// Number of hypervisor CSR slots in the NACL shared memory, one native word each.
pub const NACL_CSR_COUNT: usize = 19;

/// NACL slot of `htval`.
pub const NACL_HTVAL: usize = 0;

/// NACL slot of `htinst`.
pub const NACL_HTINST: usize = 1;

/// The 32 general purpose registers of a hart.
#[derive(Debug)]
pub struct GeneralPurposeRegisters {
    pub regs: Vec<usize>,
}

impl GeneralPurposeRegisters {
    pub open spec fn wf(&self) -> bool {
        self.regs@.len() == GPR_COUNT
    }

    /// All registers zero.
    pub fn new() -> (r: Self)
        ensures
            r.wf(),
            forall|i: int| 0 <= i < GPR_COUNT ==> #[trigger] r.regs@[i] == 0,
    {
        let mut regs: Vec<usize> = Vec::new();
        let mut i: usize = 0;
        while i < GPR_COUNT
            invariant
                i <= GPR_COUNT,
                regs@.len() == i,
                forall|j: int| 0 <= j < i ==> #[trigger] regs@[j] == 0,
            decreases GPR_COUNT - i,
        {
            regs.push(0);
            i = i + 1;
        }
        GeneralPurposeRegisters { regs }
    }

    pub fn read(&self, register: usize) -> (r: usize)
        requires
            self.wf(),
            register < GPR_COUNT,
        ensures
            r == self.regs@[register as int],
    {
        self.regs[register]
    }

    pub fn write(&mut self, register: usize, value: usize)
        requires
            old(self).wf(),
            register < GPR_COUNT,
        ensures
            final(self).regs@ == old(self).regs@.update(register as int, value),
            final(self).wf(),
    {
        self.regs.set(register, value);
    }
}

/// The CSRs of a confidential hart that the monitor reads or writes.
#[derive(Clone, Copy, Debug, PartialEq, Eq, Structural)]
pub struct ConfidentialHartCsrs {
    pub mepc: usize,
    pub mcause: usize,
    pub mtval: usize,
    pub mtval2: usize,
    pub mtinst: usize,
    pub sepc: usize,
    pub scause: usize,
    pub stval: usize,
    /// The guest's own trap vector, where injected traps enter it.
    pub stvec: usize,
}

/// The CSRs of the hypervisor hart that the monitor reads or writes.
#[derive(Clone, Copy, Debug, PartialEq, Eq, Structural)]
pub struct HypervisorHartCsrs {
    pub mepc: usize,
    pub scause: usize,
    pub stval: usize,
}

/// The lifecycle of a confidential hart: Stopped, then Started, then Shutdown for good.
#[derive(Clone, Copy, Debug, PartialEq, Eq, Structural)]
pub enum HartLifecycle {
    Started,
    Stopped,
    Shutdown,
}

/// A pending MMIO load: the length of the faulting instruction, its destination register, and
/// the width of the access and whether the loaded value is sign-extended.
#[derive(Clone, Copy, Debug, PartialEq, Eq, Structural)]
pub struct MmioLoadPending {
    pub instruction_length: usize,
    pub gpr: usize,
    pub width: Width,
    pub signed: bool,
}

/// What a confidential hart waits for while the hypervisor serves its request.
#[derive(Clone, Copy, Debug, PartialEq, Eq, Structural)]
pub enum ResumableOperation {
    SbiRequest,
    MmioLoad(MmioLoadPending),
    /// Sharing the page at this guest address, once the hypervisor names its page.
    SharePage(usize),
}

/// A vCPU of a confidential VM.
#[derive(Debug)]
pub struct ConfidentialHart {
    pub id: usize,
    pub gprs: GeneralPurposeRegisters,
    pub csrs: ConfidentialHartCsrs,
    pub lifecycle: HartLifecycle,
    pub resumable_operation: Option<ResumableOperation>,
}

impl ConfidentialHart {
    pub open spec fn wf(&self) -> bool {
        self.gprs.wf()
    }

    /// A stopped hart with zeroed registers that will start at `entry_point`.
    pub fn new(id: usize, entry_point: usize) -> (r: Self)
        ensures
            r.wf(),
            r.id == id,
            r.lifecycle == HartLifecycle::Stopped,
            r.csrs.mepc == entry_point,
            r.resumable_operation is None,
    {
        ConfidentialHart {
            id,
            gprs: GeneralPurposeRegisters::new(),
            csrs: ConfidentialHartCsrs {
                mepc: entry_point,
                mcause: 0,
                mtval: 0,
                mtval2: 0,
                mtinst: 0,
                sepc: 0,
                scause: 0,
                stval: 0,
                stvec: 0,
            },
            lifecycle: HartLifecycle::Stopped,
            resumable_operation: None,
        }
    }

    /// Starts a stopped hart; a started hart stays started; a shut down hart cannot be restarted.
    pub fn start(&mut self) -> (r: bool)
        ensures
            r == (old(self).lifecycle != HartLifecycle::Shutdown),
            final(self).lifecycle == if r {
                HartLifecycle::Started
            } else {
                HartLifecycle::Shutdown
            },
            final(self).id == old(self).id,
            final(self).gprs == old(self).gprs,
            final(self).csrs == old(self).csrs,
            final(self).resumable_operation == old(self).resumable_operation,
    {
        if self.lifecycle == HartLifecycle::Shutdown {
            false
        } else {
            self.lifecycle = HartLifecycle::Started;
            true
        }
    }

    /// Moves the hart to its final state.
    pub fn shutdown(&mut self)
        ensures
            final(self).lifecycle == HartLifecycle::Shutdown,
            final(self).id == old(self).id,
            final(self).gprs == old(self).gprs,
            final(self).csrs == old(self).csrs,
            final(self).resumable_operation == old(self).resumable_operation,
    {
        self.lifecycle = HartLifecycle::Shutdown;
    }
}

/// The NACL shared memory of the hypervisor: a page of non-confidential memory where
/// hypervisor CSRs are exchanged, one native word per CSR.
#[derive(Debug)]
pub struct NaclSharedMemory {
    /// Where the hypervisor placed the page, once it has set it up.
    pub base_address: Option<usize>,
    pub slots: Vec<usize>,
}

impl NaclSharedMemory {
    pub open spec fn wf(&self) -> bool {
        self.slots@.len() == NACL_CSR_COUNT
    }

    pub fn new() -> (r: Self)
        ensures
            r.wf(),
            r.base_address is None,
    {
        let mut slots: Vec<usize> = Vec::new();
        let mut i: usize = 0;
        while i < NACL_CSR_COUNT
            invariant
                i <= NACL_CSR_COUNT,
                slots@.len() == i,
            decreases NACL_CSR_COUNT - i,
        {
            slots.push(0);
            i = i + 1;
        }
        NaclSharedMemory { base_address: None, slots }
    }

    pub fn write_csr(&mut self, slot: usize, value: usize)
        requires
            old(self).wf(),
            slot < NACL_CSR_COUNT,
        ensures
            final(self).wf(),
            final(self).base_address == old(self).base_address,
            final(self).slots@ == old(self).slots@.update(slot as int, value),
    {
        self.slots.set(slot, value);
    }
}

/// The hypervisor's state as seen from M-mode.
#[derive(Debug)]
pub struct HypervisorHart {
    pub gprs: GeneralPurposeRegisters,
    pub csrs: HypervisorHartCsrs,
    pub shared_memory: NaclSharedMemory,
}

impl HypervisorHart {
    pub open spec fn wf(&self) -> bool {
        self.gprs.wf() && self.shared_memory.wf()
    }

    pub fn new() -> (r: Self)
        ensures
            r.wf(),
            r.shared_memory.base_address is None,
    {
        HypervisorHart {
            gprs: GeneralPurposeRegisters::new(),
            csrs: HypervisorHartCsrs { mepc: 0, scause: 0, stval: 0 },
            shared_memory: NaclSharedMemory::new(),
        }
    }
}

} // verus!

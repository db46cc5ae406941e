use vstd::prelude::*;

use crate::arch::{ExecutionMode, Mode};
use crate::policy::{PolicyHookResult, PolicyModule};
use crate::pmp::{MiralisContext, PMP_ADDR_COUNT};
use crate::virt_csr::{Architecture, Csr, VirtCsr};

verus! {

/// Exception code of an illegal instruction.
pub const MCAUSE_ILLEGAL_INSTRUCTION: u64 = 2;

/// The `wfi` instruction.
pub const WFI: u64 = 0x1050_0073;

/// The `mret` instruction.
pub const MRET: u64 = 0x3020_0073;

/// Major opcode of `SYSTEM` instructions, which include the CSR instructions.
pub const OPCODE_SYSTEM: u64 = 0x73;

/// Mask of the MPP field of `mstatus`.
pub const MPP_MASK: u64 = 0b11 << 11;

/// Mask of the MIE bit of `mstatus`.
pub const MIE_MASK: u64 = 0b1 << 3;

/// Mask of the MPIE bit of `mstatus`.
pub const MPIE_MASK: u64 = 0b1 << 7;

/// What the hardware recorded on the last trap.
#[derive(Clone, Copy, Debug, PartialEq, Eq, Structural)]
pub struct TrapInfo {
    pub mepc: u64,
    pub mstatus: u64,
    pub mcause: u64,
    pub mip: u64,
    pub mtval: u64,
}

impl TrapInfo {
    /// The trap was taken while the monitor itself ran in M-mode.
    pub open spec fn from_mmode(&self) -> bool {
        (self.mstatus & MPP_MASK) >> 11u64 == 3
    }

    pub fn is_from_mmode(&self) -> (r: bool)
        ensures
            r == self.from_mmode(),
    {
        (self.mstatus & MPP_MASK) >> 11u64 == 3
    }
}

/// The CSR that the 12-bit CSR number `n` names.
pub open spec fn csr_of_number_spec(n: u64) -> Csr {
    if 0x3A0 <= n < 0x3B0 {
        Csr::Pmpcfg((n - 0x3A0) as usize)
    } else if 0x3B0 <= n < 0x3F0 {
        Csr::Pmpaddr((n - 0x3B0) as usize)
    } else if 0x323 <= n < 0x340 {
        Csr::Mhpmevent((n - 0x323) as usize)
    } else if 0xB03 <= n < 0xB20 {
        Csr::Mhpmcounter((n - 0xB03) as usize)
    } else if n == 0x300 {
        Csr::Mstatus
    } else if n == 0x301 {
        Csr::Misa
    } else if n == 0x302 {
        Csr::Medeleg
    } else if n == 0x303 {
        Csr::Mideleg
    } else if n == 0x304 {
        Csr::Mie
    } else if n == 0x305 {
        Csr::Mtvec
    } else if n == 0x306 {
        Csr::Mcounteren
    } else if n == 0x30a {
        Csr::Menvcfg
    } else if n == 0x320 {
        Csr::Mcountinhibit
    } else if n == 0x340 {
        Csr::Mscratch
    } else if n == 0x341 {
        Csr::Mepc
    } else if n == 0x342 {
        Csr::Mcause
    } else if n == 0x343 {
        Csr::Mtval
    } else if n == 0x344 {
        Csr::Mip
    } else if n == 0x34a {
        Csr::Mtinst
    } else if n == 0x34b {
        Csr::Mtval2
    } else if n == 0x747 {
        Csr::Mseccfg
    } else if n == 0xb00 {
        Csr::Mcycle
    } else if n == 0xb02 {
        Csr::Minstret
    } else if n == 0xf11 {
        Csr::Mvendorid
    } else if n == 0xf12 {
        Csr::Marchid
    } else if n == 0xf13 {
        Csr::Mimpid
    } else if n == 0xf14 {
        Csr::Mhartid
    } else if n == 0xf15 {
        Csr::Mconfigptr
    } else if n == 0x100 {
        Csr::Sstatus
    } else if n == 0x104 {
        Csr::Sie
    } else if n == 0x105 {
        Csr::Stvec
    } else if n == 0x106 {
        Csr::Scounteren
    } else if n == 0x10a {
        Csr::Senvcfg
    } else if n == 0x140 {
        Csr::Sscratch
    } else if n == 0x141 {
        Csr::Sepc
    } else if n == 0x142 {
        Csr::Scause
    } else if n == 0x143 {
        Csr::Stval
    } else if n == 0x144 {
        Csr::Sip
    } else if n == 0x180 {
        Csr::Satp
    } else if n == 0x5a8 {
        Csr::Scontext
    } else if n == 0x600 {
        Csr::Hstatus
    } else if n == 0x602 {
        Csr::Hedeleg
    } else if n == 0x603 {
        Csr::Hideleg
    } else if n == 0x604 {
        Csr::Hie
    } else if n == 0x605 {
        Csr::Htimedelta
    } else if n == 0x606 {
        Csr::Hcounteren
    } else if n == 0x607 {
        Csr::Hgeie
    } else if n == 0x60a {
        Csr::Henvcfg
    } else if n == 0x643 {
        Csr::Htval
    } else if n == 0x644 {
        Csr::Hip
    } else if n == 0x645 {
        Csr::Hvip
    } else if n == 0x64a {
        Csr::Htinst
    } else if n == 0x680 {
        Csr::Hgatp
    } else if n == 0xe12 {
        Csr::Hgeip
    } else if n == 0x200 {
        Csr::Vsstatus
    } else if n == 0x204 {
        Csr::Vsie
    } else if n == 0x205 {
        Csr::Vstvec
    } else if n == 0x240 {
        Csr::Vsscratch
    } else if n == 0x241 {
        Csr::Vsepc
    } else if n == 0x242 {
        Csr::Vscause
    } else if n == 0x243 {
        Csr::Vstval
    } else if n == 0x244 {
        Csr::Vsip
    } else if n == 0x280 {
        Csr::Vsatp
    } else if n == 0x7a0 {
        Csr::Tselect
    } else if n == 0x7a1 {
        Csr::Tdata1
    } else if n == 0x7a2 {
        Csr::Tdata2
    } else if n == 0x7a3 {
        Csr::Tdata3
    } else if n == 0x7a8 {
        Csr::Mcontext
    } else if n == 0x7b0 {
        Csr::Dcsr
    } else if n == 0x7b1 {
        Csr::Dpc
    } else if n == 0x7b2 {
        Csr::Dscratch0
    } else if n == 0x7b3 {
        Csr::Dscratch1
    } else {
        Csr::Unknown
    }
}

/// The CSR that the 12-bit CSR number `n` names.
pub fn csr_of_number(n: u64) -> (r: Csr)
    ensures
        r == csr_of_number_spec(n),
        r is Pmpcfg ==> r->Pmpcfg_0 < 16,
        r is Pmpaddr ==> r->Pmpaddr_0 < 64,
        r is Mhpmevent ==> r->Mhpmevent_0 < 29,
        r is Mhpmcounter ==> r->Mhpmcounter_0 < 29,
{
    if 0x3A0 <= n && n < 0x3B0 {
        return Csr::Pmpcfg((n - 0x3A0) as usize);
    }
    if 0x3B0 <= n && n < 0x3F0 {
        return Csr::Pmpaddr((n - 0x3B0) as usize);
    }
    if 0x323 <= n && n < 0x340 {
        return Csr::Mhpmevent((n - 0x323) as usize);
    }
    if 0xB03 <= n && n < 0xB20 {
        return Csr::Mhpmcounter((n - 0xB03) as usize);
    }
    match n {
        0x300 => Csr::Mstatus,
        0x301 => Csr::Misa,
        0x302 => Csr::Medeleg,
        0x303 => Csr::Mideleg,
        0x304 => Csr::Mie,
        0x305 => Csr::Mtvec,
        0x306 => Csr::Mcounteren,
        0x30a => Csr::Menvcfg,
        0x320 => Csr::Mcountinhibit,
        0x340 => Csr::Mscratch,
        0x341 => Csr::Mepc,
        0x342 => Csr::Mcause,
        0x343 => Csr::Mtval,
        0x344 => Csr::Mip,
        0x34a => Csr::Mtinst,
        0x34b => Csr::Mtval2,
        0x747 => Csr::Mseccfg,
        0xb00 => Csr::Mcycle,
        0xb02 => Csr::Minstret,
        0xf11 => Csr::Mvendorid,
        0xf12 => Csr::Marchid,
        0xf13 => Csr::Mimpid,
        0xf14 => Csr::Mhartid,
        0xf15 => Csr::Mconfigptr,
        0x100 => Csr::Sstatus,
        0x104 => Csr::Sie,
        0x105 => Csr::Stvec,
        0x106 => Csr::Scounteren,
        0x10a => Csr::Senvcfg,
        0x140 => Csr::Sscratch,
        0x141 => Csr::Sepc,
        0x142 => Csr::Scause,
        0x143 => Csr::Stval,
        0x144 => Csr::Sip,
        0x180 => Csr::Satp,
        0x5a8 => Csr::Scontext,
        0x600 => Csr::Hstatus,
        0x602 => Csr::Hedeleg,
        0x603 => Csr::Hideleg,
        0x604 => Csr::Hie,
        0x605 => Csr::Htimedelta,
        0x606 => Csr::Hcounteren,
        0x607 => Csr::Hgeie,
        0x60a => Csr::Henvcfg,
        0x643 => Csr::Htval,
        0x644 => Csr::Hip,
        0x645 => Csr::Hvip,
        0x64a => Csr::Htinst,
        0x680 => Csr::Hgatp,
        0xe12 => Csr::Hgeip,
        0x200 => Csr::Vsstatus,
        0x204 => Csr::Vsie,
        0x205 => Csr::Vstvec,
        0x240 => Csr::Vsscratch,
        0x241 => Csr::Vsepc,
        0x242 => Csr::Vscause,
        0x243 => Csr::Vstval,
        0x244 => Csr::Vsip,
        0x280 => Csr::Vsatp,
        0x7a0 => Csr::Tselect,
        0x7a1 => Csr::Tdata1,
        0x7a2 => Csr::Tdata2,
        0x7a3 => Csr::Tdata3,
        0x7a8 => Csr::Mcontext,
        0x7b0 => Csr::Dcsr,
        0x7b1 => Csr::Dpc,
        0x7b2 => Csr::Dscratch0,
        0x7b3 => Csr::Dscratch1,
        _ => Csr::Unknown,
    }
}

/// The `funct3` field of an instruction.
pub open spec fn funct3_of(instruction: u64) -> u64 {
    (instruction >> 12u64) & 0b111
}

/// The `rd` field of an instruction.
pub open spec fn rd_field(instruction: u64) -> u64 {
    (instruction >> 7u64) & 0b1_1111
}

/// The `rs1` field of an instruction, or the immediate of the immediate CSR forms.
pub open spec fn rs1_field(instruction: u64) -> u64 {
    (instruction >> 15u64) & 0b1_1111
}

/// A CSR instruction writes its CSR unless it is a set or clear with `x0` or a zero
/// immediate.
pub open spec fn csr_instruction_writes(instruction: u64) -> bool {
    funct3_of(instruction) & 0b11 == 1 || rs1_field(instruction) != 0
}

/// The value a CSR instruction writes, from the CSR's previous value and the source operand.
pub open spec fn csr_instruction_result(instruction: u64, previous: u64, source: u64) -> u64 {
    if funct3_of(instruction) & 0b11 == 1 {
        source
    } else if funct3_of(instruction) & 0b11 == 2 {
        previous | source
    } else {
        previous & !source
    }
}

/// `new` is `old` after its last trap was delivered to the firmware's trap handler.
pub open spec fn jumped_to_trap_handler(old: VirtContext, new: VirtContext) -> bool {
    &&& new.pc == old.csr.mtvec & !0b11u64
    &&& new.mode == Mode::M
    &&& new.csr.mepc == old.trap_info.mepc
    &&& new.csr.mcause == old.trap_info.mcause
    &&& new.csr.mtval == old.trap_info.mtval
    &&& new.csr.mstatus == (((old.csr.mstatus & !MPP_MASK) | ((old.mode.bits() as u64) << 11u64))
        & !MPIE_MASK & !MIE_MASK) | (old.trap_info.mstatus & MPIE_MASK)
    &&& new.csr.mie == old.csr.mie
    &&& new.csr.mideleg == old.csr.mideleg
    &&& new.csr.mip == old.csr.mip
}

/// The virtual `mip` after the machine-level interrupts pending in hardware, `hw_mip`, were
/// brought in; bits delegated by `mideleg` keep their virtual value.
pub open spec fn injected_mip(mip: u64, mideleg: u64, hw_mip: u64) -> u64 {
    (mip & mideleg) | (hw_mip & !mideleg)
}

/// The trap is not an `ecall`, so no policy hook decides how it is handled.
pub open spec fn not_ecall(mcause: u64) -> bool {
    mcause != 8 && mcause != 9 && mcause != 11
}

/// The outcome of handling one trap.
#[derive(Clone, Copy, Debug, PartialEq, Eq, Structural)]
pub enum TrapOutcome {
    /// The trap was handled; `world_switch` tells whether execution moved between firmware
    /// and payload, so that registers and PMP must be switched.
    Handled { world_switch: bool },
    /// The monitor itself trapped: a fatal error.
    MonitorFault,
    /// The firmware reached the configured number of exits.
    ExitLimitReached,
}

/// The virtualised state of one hart: registers, virtual CSRs, where it runs, and the last
/// trap.
#[derive(Debug)]
pub struct VirtContext {
    pub hart_id: usize,
    pub regs: Vec<u64>,
    pub csr: VirtCsr,
    /// The next instruction the guest executes.
    pub pc: u64,
    /// The privilege mode the guest runs in.
    pub mode: Mode,
    pub trap_info: TrapInfo,
    /// Number of traps handled so far.
    pub nb_exits: u64,
}

impl VirtContext {
    pub open spec fn wf(&self) -> bool {
        self.regs@.len() == 32 && self.csr.wf()
    }

    /// The context of hart `hart_id` before the firmware starts: everything zero, in M-mode.
    pub fn new(hart_id: usize) -> (r: Self)
        ensures
            r.wf(),
            r.hart_id == hart_id,
            r.csr.mhartid == hart_id as u64,
            r.nb_exits == 0,
            r.mode == Mode::M,
    {
        let mut regs: Vec<u64> = Vec::new();
        let mut i: usize = 0;
        while i < 32
            invariant
                i <= 32,
                regs@.len() == i,
            decreases 32 - i,
        {
            regs.push(0);
            i = i + 1;
        }
        let mut csr = VirtCsr::new();
        csr.mhartid = hart_id as u64;
        VirtContext {
            hart_id,
            regs,
            csr,
            pc: 0,
            mode: Mode::M,
            trap_info: TrapInfo { mepc: 0, mstatus: 0, mcause: 0, mip: 0, mtval: 0 },
            nb_exits: 0,
        }
    }

    /// Delivers the last trap to the virtual firmware: its `mepc`, `mcause` and `mtval` record
    /// the trap, `mstatus` records the mode the guest came from and its interrupt enable, and
    /// the guest continues at the trap vector in M-mode.
    pub fn emulate_jump_trap_handler(&mut self)
        requires
            old(self).wf(),
        ensures
            final(self).wf(),
            final(self).csr.mepc == old(self).trap_info.mepc,
            final(self).csr.mcause == old(self).trap_info.mcause,
            final(self).csr.mtval == old(self).trap_info.mtval,
            final(self).csr.mstatus == (((old(self).csr.mstatus & !MPP_MASK) | ((old(
                self,
            ).mode.bits() as u64) << 11u64)) & !MPIE_MASK & !MIE_MASK) | (old(self).trap_info.mstatus
                & MPIE_MASK),
            final(self).csr.mie == old(self).csr.mie,
            final(self).csr.mideleg == old(self).csr.mideleg,
            final(self).csr.mip == old(self).csr.mip,
            final(self).pc == old(self).csr.mtvec & !0b11u64,
            final(self).mode == Mode::M,
            final(self).nb_exits == old(self).nb_exits,
            final(self).trap_info == old(self).trap_info,
            final(self).regs == old(self).regs,
    {
        self.csr.mepc = self.trap_info.mepc;
        self.csr.mcause = self.trap_info.mcause;
        self.csr.mtval = self.trap_info.mtval;
        let mode_bits = self.mode.to_bits() as u64;
        let with_mpp = (self.csr.mstatus & !MPP_MASK) | (mode_bits << 11u64);
        self.csr.mstatus = (with_mpp & !MPIE_MASK & !MIE_MASK) | (self.trap_info.mstatus & MPIE_MASK);
        self.pc = self.csr.mtvec & !0b11u64;
        self.mode = Mode::M;
    }

    /// Emulates `mret` in the virtual firmware: the guest continues at `mepc` in the mode that
    /// MPP holds (M for the reserved pattern), MIE takes MPIE, MPIE is set and MPP becomes U.
    pub fn emulate_mret(&mut self)
        requires
            old(self).wf(),
        ensures
            final(self).wf(),
            final(self).pc == old(self).csr.mepc,
            final(self).mode == crate::arch::mode_of_bits(((old(self).csr.mstatus & MPP_MASK) >> 11u64) as usize),
            final(self).nb_exits == old(self).nb_exits,
            final(self).trap_info == old(self).trap_info,
    {
        let mstatus = self.csr.mstatus;
        let mpp = (mstatus & MPP_MASK) >> 11u64;
        assert((mstatus & (0b11u64 << 11u64)) >> 11u64 <= 3) by (bit_vector);
        self.mode = if mpp == 0 {
            Mode::U
        } else if mpp == 1 {
            Mode::S
        } else {
            Mode::M
        };
        let mpie = (mstatus & MPIE_MASK) >> 7u64;
        self.csr.mstatus = (mstatus & !MPP_MASK & !MIE_MASK) | (mpie << 3u64) | MPIE_MASK;
        self.pc = self.csr.mepc;
    }

    /// Emulates a CSR instruction (`csrrw`, `csrrs`, `csrrc` and their immediate forms) on the
    /// virtual CSR bank. Returns false, changing nothing, for an unknown CSR or a write to a
    /// read-only one.
    pub fn emulate_csr_instruction(&mut self, instruction: u64) -> (r: bool)
        requires
            old(self).wf(),
        ensures
            final(self).wf(),
            final(self).nb_exits == old(self).nb_exits,
            final(self).trap_info == old(self).trap_info,
            final(self).mode == old(self).mode,
            !r ==> final(self).csr == old(self).csr && final(self).regs == old(self).regs
                && final(self).pc == old(self).pc,
            r <==> csr_of_number_spec(instruction >> 20u64).is_supported() && !(
            csr_instruction_writes(instruction) && (instruction >> 30u64) == 0b11),
            r ==> final(self).pc == old(self).trap_info.mepc.wrapping_add(4),
            r ==> {
                let csr = csr_of_number_spec(instruction >> 20u64);
                let previous = old(self).csr.read_spec(csr);
                let source = if funct3_of(instruction) < 4 {
                    old(self).regs@[rs1_field(instruction) as int]
                } else {
                    rs1_field(instruction)
                };
                &&& csr_instruction_writes(instruction) ==> VirtCsr::written(
                    old(self).csr,
                    final(self).csr,
                    csr,
                    csr_instruction_result(instruction, previous, source),
                )
                &&& !csr_instruction_writes(instruction) ==> final(self).csr == old(self).csr
                &&& final(self).regs@ == if rd_field(instruction) != 0 {
                    old(self).regs@.update(rd_field(instruction) as int, previous)
                } else {
                    old(self).regs@
                }
            },
    {
        let funct3 = (instruction >> 12u64) & 0b111;
        let rd = ((instruction >> 7u64) & 0b1_1111) as usize;
        let rs1 = ((instruction >> 15u64) & 0b1_1111) as usize;
        assert(((instruction >> 7u64) & 0b1_1111) < 32) by (bit_vector);
        assert(((instruction >> 15u64) & 0b1_1111) < 32) by (bit_vector);
        let csr = csr_of_number(instruction >> 20u64);
        if !is_supported(csr) {
            return false;
        }
        let source = if funct3 < 4 {
            self.regs[rs1]
        } else {
            rs1 as u64
        };
        let op = funct3 & 0b11;
        let writes = op == 1 || rs1 != 0;
        if writes && (instruction >> 30u64) == 0b11 {
            return false;
        }
        let previous = self.csr.read(csr);
        if writes {
            let value = if op == 1 {
                source
            } else if op == 2 {
                previous | source
            } else {
                previous & !source
            };
            self.csr.write(csr, value);
        }
        if rd != 0 {
            self.regs.set(rd, previous);
        }
        self.pc = self.trap_info.mepc.wrapping_add(4);
        true
    }

    /// Handles a trap of the virtual firmware: `wfi` is stepped over, `mret` and CSR
    /// instructions are emulated, and every other trap, including an instruction that cannot be
    /// emulated, is delivered to the firmware's own trap handler.
    pub fn handle_firmware_trap(&mut self)
        requires
            old(self).wf(),
        ensures
            final(self).wf(),
            final(self).nb_exits == old(self).nb_exits,
            final(self).trap_info == old(self).trap_info,
            old(self).trap_info.mcause == MCAUSE_ILLEGAL_INSTRUCTION && old(self).trap_info.mtval == WFI
                ==> final(self).pc == old(self).trap_info.mepc.wrapping_add(4) && final(self).mode == old(
                self,
            ).mode && final(self).csr == old(self).csr && final(self).regs == old(self).regs,
            old(self).trap_info.mcause == MCAUSE_ILLEGAL_INSTRUCTION && old(self).trap_info.mtval == MRET
                ==> final(self).pc == old(self).csr.mepc && final(self).mode == crate::arch::mode_of_bits(
                ((old(self).csr.mstatus & MPP_MASK) >> 11u64) as usize,
            ),
            old(self).trap_info.mcause != MCAUSE_ILLEGAL_INSTRUCTION ==> jumped_to_trap_handler(
                *old(self),
                *final(self),
            ),
    {
        if self.trap_info.mcause == MCAUSE_ILLEGAL_INSTRUCTION {
            let instruction = self.trap_info.mtval;
            if instruction == WFI {
                self.pc = self.trap_info.mepc.wrapping_add(4);
                return;
            }
            if instruction == MRET {
                self.emulate_mret();
                return;
            }
            if instruction & 0x7f == OPCODE_SYSTEM && (instruction >> 12u64) & 0b11 != 0 {
                if self.emulate_csr_instruction(instruction) {
                    return;
                }
            }
        }
        self.emulate_jump_trap_handler();
    }

    /// Handles a trap of the payload: it goes to the firmware's trap handler.
    pub fn handle_payload_trap(&mut self)
        requires
            old(self).wf(),
        ensures
            final(self).wf(),
            final(self).nb_exits == old(self).nb_exits,
            final(self).trap_info == old(self).trap_info,
            jumped_to_trap_handler(*old(self), *final(self)),
    {
        self.emulate_jump_trap_handler();
    }

    /// Brings machine-level pending interrupts that the hardware recorded into the virtual
    /// `mip`; delegated bits keep their virtual value.
    pub fn check_and_inject_interrupts(&mut self)
        requires
            old(self).wf(),
        ensures
            final(self).wf(),
            final(self).csr == (VirtCsr {
                mip: injected_mip(old(self).csr.mip, old(self).csr.mideleg, old(self).trap_info.mip),
                ..old(self).csr
            }),
            final(self).regs == old(self).regs,
            final(self).csr.mie == old(self).csr.mie,
            final(self).csr.mideleg == old(self).csr.mideleg,
            final(self).csr.mepc == old(self).csr.mepc,
            final(self).csr.mstatus == old(self).csr.mstatus,
            final(self).pc == old(self).pc,
            final(self).mode == old(self).mode,
            final(self).nb_exits == old(self).nb_exits,
            final(self).trap_info == old(self).trap_info,
    {
        self.csr.mip = (self.csr.mip & self.csr.mideleg) | (self.trap_info.mip & !self.csr.mideleg);
    }
}

fn is_supported(csr: Csr) -> (r: bool)
    requires
        csr is Pmpcfg ==> csr->Pmpcfg_0 < 16,
        csr is Pmpaddr ==> csr->Pmpaddr_0 < 64,
        csr is Mhpmevent ==> csr->Mhpmevent_0 < 29,
        csr is Mhpmcounter ==> csr->Mhpmcounter_0 < 29,
    ensures
        r == csr.is_supported(),
{
    match csr {
        Csr::Mtval2 | Csr::Tselect | Csr::Tdata1 | Csr::Tdata2 | Csr::Tdata3 | Csr::Mcontext
        | Csr::Dcsr | Csr::Dpc | Csr::Dscratch0 | Csr::Dscratch1 | Csr::Unknown => false,
        _ => true,
    }
}

/// Handles one trap of the guest. A trap taken in the monitor itself is fatal and a trap past
/// the exit limit (or with the exit counter at its largest value) stops the guest; both leave
/// everything as it was. Otherwise the trap is counted and, unless the policy handles an
/// `ecall` itself, handled by the firmware or payload handler according to where the guest
/// ran; pending interrupts are brought into the virtual `mip`; and on a switch between
/// firmware and payload the policy is told and the PMP state is committed to the hardware,
/// whose translation caches must then be flushed.
pub fn handle_trap<A: Architecture, P: PolicyModule>(
    ctx: &mut VirtContext,
    mctx: &mut MiralisContext,
    arch: &mut A,
    policy: &mut P,
    max_firmware_exits: Option<u64>,
) -> (r: TrapOutcome)
    requires
        old(ctx).wf(),
        old(mctx).pmp.wf(),
        old(mctx).pmp.nb_pmp <= PMP_ADDR_COUNT,
        old(arch).csr_bank().wf(),
    ensures
        final(ctx).wf(),
        final(mctx).pmp.wf(),
        final(arch).csr_bank().wf(),
        (match max_firmware_exits {
            Some(max) => old(ctx).nb_exits + 1 >= max,
            None => false,
        } || old(ctx).nb_exits == u64::MAX) ==> r == TrapOutcome::ExitLimitReached,
        r is Handled <==> !(match max_firmware_exits {
            Some(max) => old(ctx).nb_exits + 1 >= max,
            None => false,
        } || old(ctx).nb_exits == u64::MAX) && !old(ctx).trap_info.from_mmode(),
        !(r is Handled) && r != TrapOutcome::ExitLimitReached ==> r == TrapOutcome::MonitorFault,
        !(r is Handled) ==> *final(ctx) == *old(ctx) && *final(mctx) == *old(mctx) && *final(arch)
            == *old(arch),
        r is Handled ==> final(ctx).nb_exits == old(ctx).nb_exits + 1,
        r matches TrapOutcome::Handled { world_switch } ==> {
            &&& world_switch == (old(ctx).mode.exec_mode() != final(ctx).mode.exec_mode())
            &&& world_switch ==> VirtCsr::pmp_committed(
                old(arch).csr_bank(),
                final(arch).csr_bank(),
                final(mctx).pmp,
            )
            &&& !world_switch ==> final(arch).csr_bank() == old(arch).csr_bank()
        },
        r is Handled && not_ecall(old(ctx).trap_info.mcause) ==> {
            let o = *old(ctx);
            let f = *final(ctx);
            &&& o.mode != Mode::M ==> f.mode == Mode::M
            &&& o.mode == Mode::M && o.trap_info.mcause != MCAUSE_ILLEGAL_INSTRUCTION ==> {
                &&& f.pc == o.csr.mtvec & !0b11u64
                &&& f.mode == Mode::M
                &&& f.csr.mepc == o.trap_info.mepc
                &&& f.csr.mcause == o.trap_info.mcause
                &&& f.csr.mtval == o.trap_info.mtval
                &&& f.csr.mstatus == (((o.csr.mstatus & !MPP_MASK) | ((o.mode.bits() as u64) << 11u64))
                    & !MPIE_MASK & !MIE_MASK) | (o.trap_info.mstatus & MPIE_MASK)
                &&& f.csr.mie == o.csr.mie
                &&& f.csr.mideleg == o.csr.mideleg
                &&& f.csr.mip == injected_mip(o.csr.mip, o.csr.mideleg, o.trap_info.mip)
            }
            &&& o.mode == Mode::M && o.trap_info.mcause == MCAUSE_ILLEGAL_INSTRUCTION
                && o.trap_info.mtval == WFI ==> {
                &&& f.pc == o.trap_info.mepc.wrapping_add(4)
                &&& f.mode == Mode::M
                &&& f.regs == o.regs
                &&& f.csr == (VirtCsr {
                    mip: injected_mip(o.csr.mip, o.csr.mideleg, o.trap_info.mip),
                    ..o.csr
                })
            }
        },
{
    if let Some(max_exit) = max_firmware_exits {
        if ctx.nb_exits >= max_exit || max_exit - ctx.nb_exits <= 1 {
            return TrapOutcome::ExitLimitReached;
        }
    }
    if ctx.nb_exits == u64::MAX {
        return TrapOutcome::ExitLimitReached;
    }
    if ctx.trap_info.is_from_mmode() {
        return TrapOutcome::MonitorFault;
    }
    let exec_mode = ctx.mode.to_exec_mode();
    ctx.nb_exits = ctx.nb_exits + 1;
    let mcause = ctx.trap_info.mcause;
    let hook = if mcause == 8 || mcause == 9 || mcause == 11 {
        match exec_mode {
            ExecutionMode::Firmware => policy.ecall_from_firmware(mctx, ctx),
            ExecutionMode::Payload => policy.ecall_from_payload(mctx, ctx),
        }
    } else {
        PolicyHookResult::Ignore
    };
    if hook == PolicyHookResult::Ignore {
        match exec_mode {
            ExecutionMode::Firmware => ctx.handle_firmware_trap(),
            ExecutionMode::Payload => ctx.handle_payload_trap(),
        }
    }
    ctx.check_and_inject_interrupts();
    let new_mode = ctx.mode.to_exec_mode();
    let world_switch = exec_mode != new_mode;
    if world_switch {
        match exec_mode {
            ExecutionMode::Firmware => policy.switch_from_firmware_to_payload(ctx, mctx),
            ExecutionMode::Payload => policy.switch_from_payload_to_firmware(ctx, mctx),
        }
        let _flush = arch.write_pmp(&mctx.pmp);
    }
    TrapOutcome::Handled { world_switch }
}

} // verus!

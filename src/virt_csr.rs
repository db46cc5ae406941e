use vstd::prelude::*;

use crate::arch::{ExtensionsCapability, HardwareCapability, Mode, RegistersCapability};
use crate::pmp::{PmpFlush, PmpGroup, PMP_ADDR_COUNT};
use crate::virt::TrapInfo;

verus! {

/// Number of `pmpcfg` registers kept in the virtual bank.
pub const PMPCFG_COUNT: usize = 16;

/// Number of `pmpaddr` registers kept in the virtual bank.
pub const PMPADDR_COUNT: usize = 64;

/// Number of `mhpmcounter` and `mhpmevent` registers kept in the virtual bank.
pub const MHPM_COUNT: usize = 29;

/// The fields of `mstatus` that `sstatus` shows.
pub const SSTATUS_FILTER: u64 = (0b1 << 1) | (0b1 << 5) | (0b1 << 6) | (0b1 << 8) | (0b11 << 9) | (0b11
    << 13) | (0b11 << 15) | (0b1 << 18) | (0b1 << 19) | (0b11 << 32) | (0b1 << 63);

/// The supervisor interrupt bits of `mie` and `mip` that `sie` and `sip` show.
pub const SIE_FILTER: u64 = (0b1 << 1) | (0b1 << 5) | (0b1 << 9) | (0b1 << 13);

/// Mask of the MPP field of `mstatus`.
pub const MSTATUS_MPP_FILTER: u64 = 0b11 << 11;

/// The control and status registers that the monitor virtualises.
#[derive(Clone, Copy, Debug, PartialEq, Eq, Structural)]
pub enum Csr {
    Mhartid,
    Mstatus,
    Misa,
    Mie,
    Mtvec,
    Mscratch,
    Mip,
    Mvendorid,
    Marchid,
    Mimpid,
    Pmpcfg(usize),
    Pmpaddr(usize),
    Mcycle,
    Minstret,
    Mhpmcounter(usize),
    Mcountinhibit,
    Mhpmevent(usize),
    Mcounteren,
    Menvcfg,
    Mseccfg,
    Mconfigptr,
    Medeleg,
    Mideleg,
    Mtinst,
    Mtval2,
    Tselect,
    Tdata1,
    Tdata2,
    Tdata3,
    Mcontext,
    Dcsr,
    Dpc,
    Dscratch0,
    Dscratch1,
    Mepc,
    Mcause,
    Mtval,
    Sstatus,
    Sie,
    Stvec,
    Scounteren,
    Senvcfg,
    Sscratch,
    Sepc,
    Scause,
    Stval,
    Sip,
    Satp,
    Scontext,
    Hstatus,
    Hedeleg,
    Hideleg,
    Hvip,
    Hip,
    Hie,
    Hgeip,
    Hgeie,
    Henvcfg,
    Hcounteren,
    Htimedelta,
    Htval,
    Htinst,
    Hgatp,
    Vsstatus,
    Vsie,
    Vstvec,
    Vsscratch,
    Vsepc,
    Vscause,
    Vstval,
    Vsip,
    Vsatp,
    Unknown,
}

/// The virtual CSR bank of a hart.
#[derive(Debug)]
pub struct VirtCsr {
    pub mhartid: u64,
    pub mstatus: u64,
    pub misa: u64,
    pub mie: u64,
    pub mtvec: u64,
    pub mscratch: u64,
    pub mip: u64,
    pub mvendorid: u64,
    pub marchid: u64,
    pub mimpid: u64,
    pub mcycle: u64,
    pub minstret: u64,
    pub mcountinhibit: u64,
    pub mcounteren: u64,
    pub menvcfg: u64,
    pub mseccfg: u64,
    pub mconfigptr: u64,
    pub medeleg: u64,
    pub mideleg: u64,
    pub mtinst: u64,
    pub mepc: u64,
    pub mcause: u64,
    pub mtval: u64,
    pub stvec: u64,
    pub scounteren: u64,
    pub senvcfg: u64,
    pub sscratch: u64,
    pub sepc: u64,
    pub scause: u64,
    pub stval: u64,
    pub satp: u64,
    pub scontext: u64,
    pub hstatus: u64,
    pub hedeleg: u64,
    pub hideleg: u64,
    pub hvip: u64,
    pub hip: u64,
    pub hie: u64,
    pub hgeip: u64,
    pub hgeie: u64,
    pub henvcfg: u64,
    pub hcounteren: u64,
    pub htimedelta: u64,
    pub htval: u64,
    pub htinst: u64,
    pub hgatp: u64,
    pub vsstatus: u64,
    pub vsie: u64,
    pub vstvec: u64,
    pub vsscratch: u64,
    pub vsepc: u64,
    pub vscause: u64,
    pub vstval: u64,
    pub vsip: u64,
    pub vsatp: u64,
    pub pmpcfg: Vec<u64>,
    pub pmpaddr: Vec<u64>,
    pub mhpmcounter: Vec<u64>,
    pub mhpmevent: Vec<u64>,
}

impl Csr {
    /// The register exists in the bank; debug and trigger registers, `mtval2` and unknown
    /// registers do not.
    pub open spec fn is_supported(self) -> bool {
        match self {
            Csr::Pmpcfg(i) => i < PMPCFG_COUNT,
            Csr::Pmpaddr(i) => i < PMPADDR_COUNT,
            Csr::Mhpmcounter(i) => i < MHPM_COUNT,
            Csr::Mhpmevent(i) => i < MHPM_COUNT,
            Csr::Mtval2 => false,
            Csr::Tselect => false,
            Csr::Tdata1 => false,
            Csr::Tdata2 => false,
            Csr::Tdata3 => false,
            Csr::Mcontext => false,
            Csr::Dcsr => false,
            Csr::Dpc => false,
            Csr::Dscratch0 => false,
            Csr::Dscratch1 => false,
            Csr::Unknown => false,
            _ => true,
        }
    }

    /// A guest write to the register takes effect; `hgeip` and `mhartid` are read-only.
    pub open spec fn is_writable(self) -> bool {
        self.is_supported() && self != Csr::Hgeip && self != Csr::Mhartid
    }

    /// The bits of the register that a write can change.
    pub open spec fn legal_mask(self) -> u64 {
        match self {
            Csr::Sstatus => SSTATUS_FILTER,
            Csr::Sie | Csr::Sip => SIE_FILTER,
            _ => u64::MAX,
        }
    }
}

impl VirtCsr {
    pub open spec fn wf(&self) -> bool {
        self.pmpcfg@.len() == PMPCFG_COUNT
        && self.pmpaddr@.len() == PMPADDR_COUNT
        && self.mhpmcounter@.len() == MHPM_COUNT
        && self.mhpmevent@.len() == MHPM_COUNT
    }

    /// The value a read of `csr` returns.
    pub open spec fn read_spec(&self, csr: Csr) -> u64 {
        match csr {
            Csr::Pmpcfg(i) => self.pmpcfg@[i as int],
            Csr::Pmpaddr(i) => self.pmpaddr@[i as int],
            Csr::Mhpmcounter(i) => self.mhpmcounter@[i as int],
            Csr::Mhpmevent(i) => self.mhpmevent@[i as int],
            Csr::Sstatus => self.mstatus & SSTATUS_FILTER,
            Csr::Sie => self.mie & SIE_FILTER,
            Csr::Sip => self.mip & SIE_FILTER,
            Csr::Mhartid => self.mhartid,
            Csr::Mstatus => self.mstatus,
            Csr::Misa => self.misa,
            Csr::Mie => self.mie,
            Csr::Mtvec => self.mtvec,
            Csr::Mscratch => self.mscratch,
            Csr::Mip => self.mip,
            Csr::Mvendorid => self.mvendorid,
            Csr::Marchid => self.marchid,
            Csr::Mimpid => self.mimpid,
            Csr::Mcycle => self.mcycle,
            Csr::Minstret => self.minstret,
            Csr::Mcountinhibit => self.mcountinhibit,
            Csr::Mcounteren => self.mcounteren,
            Csr::Menvcfg => self.menvcfg,
            Csr::Mseccfg => self.mseccfg,
            Csr::Mconfigptr => self.mconfigptr,
            Csr::Medeleg => self.medeleg,
            Csr::Mideleg => self.mideleg,
            Csr::Mtinst => self.mtinst,
            Csr::Mepc => self.mepc,
            Csr::Mcause => self.mcause,
            Csr::Mtval => self.mtval,
            Csr::Stvec => self.stvec,
            Csr::Scounteren => self.scounteren,
            Csr::Senvcfg => self.senvcfg,
            Csr::Sscratch => self.sscratch,
            Csr::Sepc => self.sepc,
            Csr::Scause => self.scause,
            Csr::Stval => self.stval,
            Csr::Satp => self.satp,
            Csr::Scontext => self.scontext,
            Csr::Hstatus => self.hstatus,
            Csr::Hedeleg => self.hedeleg,
            Csr::Hideleg => self.hideleg,
            Csr::Hvip => self.hvip,
            Csr::Hip => self.hip,
            Csr::Hie => self.hie,
            Csr::Hgeip => self.hgeip,
            Csr::Hgeie => self.hgeie,
            Csr::Henvcfg => self.henvcfg,
            Csr::Hcounteren => self.hcounteren,
            Csr::Htimedelta => self.htimedelta,
            Csr::Htval => self.htval,
            Csr::Htinst => self.htinst,
            Csr::Hgatp => self.hgatp,
            Csr::Vsstatus => self.vsstatus,
            Csr::Vsie => self.vsie,
            Csr::Vstvec => self.vstvec,
            Csr::Vsscratch => self.vsscratch,
            Csr::Vsepc => self.vsepc,
            Csr::Vscause => self.vscause,
            Csr::Vstval => self.vstval,
            Csr::Vsip => self.vsip,
            Csr::Vsatp => self.vsatp,
            _ => 0,
        }
    }

    /// `new` is `old` after a write of `value` to `csr`.
    pub open spec fn written(old: VirtCsr, new: VirtCsr, csr: Csr, value: u64) -> bool {
        match csr {
            Csr::Pmpcfg(i) => new.pmpcfg@ == old.pmpcfg@.update(i as int, value) && new == (VirtCsr { pmpcfg: new.pmpcfg, ..old }),
            Csr::Pmpaddr(i) => new.pmpaddr@ == old.pmpaddr@.update(i as int, value) && new == (VirtCsr { pmpaddr: new.pmpaddr, ..old }),
            Csr::Mhpmcounter(i) => new.mhpmcounter@ == old.mhpmcounter@.update(i as int, value) && new == (VirtCsr { mhpmcounter: new.mhpmcounter, ..old }),
            Csr::Mhpmevent(i) => new.mhpmevent@ == old.mhpmevent@.update(i as int, value) && new == (VirtCsr { mhpmevent: new.mhpmevent, ..old }),
            Csr::Sstatus => new == (VirtCsr {
                mstatus: (old.mstatus & !SSTATUS_FILTER) | (value & SSTATUS_FILTER),
                ..old
            }),
            Csr::Sie => new == (VirtCsr { mie: (old.mie & !SIE_FILTER) | (value & SIE_FILTER), ..old }),
            Csr::Sip => new == (VirtCsr { mip: (old.mip & !SIE_FILTER) | (value & SIE_FILTER), ..old }),
            Csr::Hgeip | Csr::Mhartid => new == old,
            Csr::Mstatus => new == (VirtCsr { mstatus: value, ..old }),
            Csr::Misa => new == (VirtCsr { misa: value, ..old }),
            Csr::Mie => new == (VirtCsr { mie: value, ..old }),
            Csr::Mtvec => new == (VirtCsr { mtvec: value, ..old }),
            Csr::Mscratch => new == (VirtCsr { mscratch: value, ..old }),
            Csr::Mip => new == (VirtCsr { mip: value, ..old }),
            Csr::Mvendorid => new == (VirtCsr { mvendorid: value, ..old }),
            Csr::Marchid => new == (VirtCsr { marchid: value, ..old }),
            Csr::Mimpid => new == (VirtCsr { mimpid: value, ..old }),
            Csr::Mcycle => new == (VirtCsr { mcycle: value, ..old }),
            Csr::Minstret => new == (VirtCsr { minstret: value, ..old }),
            Csr::Mcountinhibit => new == (VirtCsr { mcountinhibit: value, ..old }),
            Csr::Mcounteren => new == (VirtCsr { mcounteren: value, ..old }),
            Csr::Menvcfg => new == (VirtCsr { menvcfg: value, ..old }),
            Csr::Mseccfg => new == (VirtCsr { mseccfg: value, ..old }),
            Csr::Mconfigptr => new == (VirtCsr { mconfigptr: value, ..old }),
            Csr::Medeleg => new == (VirtCsr { medeleg: value, ..old }),
            Csr::Mideleg => new == (VirtCsr { mideleg: value, ..old }),
            Csr::Mtinst => new == (VirtCsr { mtinst: value, ..old }),
            Csr::Mepc => new == (VirtCsr { mepc: value, ..old }),
            Csr::Mcause => new == (VirtCsr { mcause: value, ..old }),
            Csr::Mtval => new == (VirtCsr { mtval: value, ..old }),
            Csr::Stvec => new == (VirtCsr { stvec: value, ..old }),
            Csr::Scounteren => new == (VirtCsr { scounteren: value, ..old }),
            Csr::Senvcfg => new == (VirtCsr { senvcfg: value, ..old }),
            Csr::Sscratch => new == (VirtCsr { sscratch: value, ..old }),
            Csr::Sepc => new == (VirtCsr { sepc: value, ..old }),
            Csr::Scause => new == (VirtCsr { scause: value, ..old }),
            Csr::Stval => new == (VirtCsr { stval: value, ..old }),
            Csr::Satp => new == (VirtCsr { satp: value, ..old }),
            Csr::Scontext => new == (VirtCsr { scontext: value, ..old }),
            Csr::Hstatus => new == (VirtCsr { hstatus: value, ..old }),
            Csr::Hedeleg => new == (VirtCsr { hedeleg: value, ..old }),
            Csr::Hideleg => new == (VirtCsr { hideleg: value, ..old }),
            Csr::Hvip => new == (VirtCsr { hvip: value, ..old }),
            Csr::Hip => new == (VirtCsr { hip: value, ..old }),
            Csr::Hie => new == (VirtCsr { hie: value, ..old }),
            Csr::Hgeie => new == (VirtCsr { hgeie: value, ..old }),
            Csr::Henvcfg => new == (VirtCsr { henvcfg: value, ..old }),
            Csr::Hcounteren => new == (VirtCsr { hcounteren: value, ..old }),
            Csr::Htimedelta => new == (VirtCsr { htimedelta: value, ..old }),
            Csr::Htval => new == (VirtCsr { htval: value, ..old }),
            Csr::Htinst => new == (VirtCsr { htinst: value, ..old }),
            Csr::Hgatp => new == (VirtCsr { hgatp: value, ..old }),
            Csr::Vsstatus => new == (VirtCsr { vsstatus: value, ..old }),
            Csr::Vsie => new == (VirtCsr { vsie: value, ..old }),
            Csr::Vstvec => new == (VirtCsr { vstvec: value, ..old }),
            Csr::Vsscratch => new == (VirtCsr { vsscratch: value, ..old }),
            Csr::Vsepc => new == (VirtCsr { vsepc: value, ..old }),
            Csr::Vscause => new == (VirtCsr { vscause: value, ..old }),
            Csr::Vstval => new == (VirtCsr { vstval: value, ..old }),
            Csr::Vsip => new == (VirtCsr { vsip: value, ..old }),
            Csr::Vsatp => new == (VirtCsr { vsatp: value, ..old }),
            _ => new == old,
        }
    }

    /// `new` is `old` after the PMP state `pmp` was committed to it: the first `nb_pmp` address
    /// registers and, with at least eight entries, `pmpcfg0`; nothing else differs.
    pub open spec fn pmp_committed(old: VirtCsr, new: VirtCsr, pmp: PmpGroup) -> bool {
        &&& new.pmpaddr@.len() == old.pmpaddr@.len()
        &&& forall|i: int|
            0 <= i < old.pmpaddr@.len() ==> #[trigger] new.pmpaddr@[i] == if i < pmp.nb_pmp {
                pmp.pmpaddr@[i] as u64
            } else {
                old.pmpaddr@[i]
            }
        &&& new.pmpcfg@ == if pmp.nb_pmp >= 8 {
            old.pmpcfg@.update(0, pmp.pmpcfg0)
        } else {
            old.pmpcfg@
        }
        &&& new == (VirtCsr { pmpaddr: new.pmpaddr, pmpcfg: new.pmpcfg, ..old })
    }

    /// A bank with every register zero.
    pub fn new() -> (r: Self)
        ensures
            r.wf(),
    {
        VirtCsr {
            mhartid: 0,
            mstatus: 0,
            misa: 0,
            mie: 0,
            mtvec: 0,
            mscratch: 0,
            mip: 0,
            mvendorid: 0,
            marchid: 0,
            mimpid: 0,
            mcycle: 0,
            minstret: 0,
            mcountinhibit: 0,
            mcounteren: 0,
            menvcfg: 0,
            mseccfg: 0,
            mconfigptr: 0,
            medeleg: 0,
            mideleg: 0,
            mtinst: 0,
            mepc: 0,
            mcause: 0,
            mtval: 0,
            stvec: 0,
            scounteren: 0,
            senvcfg: 0,
            sscratch: 0,
            sepc: 0,
            scause: 0,
            stval: 0,
            satp: 0,
            scontext: 0,
            hstatus: 0,
            hedeleg: 0,
            hideleg: 0,
            hvip: 0,
            hip: 0,
            hie: 0,
            hgeip: 0,
            hgeie: 0,
            henvcfg: 0,
            hcounteren: 0,
            htimedelta: 0,
            htval: 0,
            htinst: 0,
            hgatp: 0,
            vsstatus: 0,
            vsie: 0,
            vstvec: 0,
            vsscratch: 0,
            vsepc: 0,
            vscause: 0,
            vstval: 0,
            vsip: 0,
            vsatp: 0,
            pmpcfg: zeros(PMPCFG_COUNT),
            pmpaddr: zeros(PMPADDR_COUNT),
            mhpmcounter: zeros(MHPM_COUNT),
            mhpmevent: zeros(MHPM_COUNT),
        }
    }

    /// Reads `csr`.
    pub fn read(&self, csr: Csr) -> (r: u64)
        requires
            self.wf(),
            csr.is_supported(),
        ensures
            r == self.read_spec(csr),
    {
        match csr {
            Csr::Pmpcfg(i) => self.pmpcfg[i],
            Csr::Pmpaddr(i) => self.pmpaddr[i],
            Csr::Mhpmcounter(i) => self.mhpmcounter[i],
            Csr::Mhpmevent(i) => self.mhpmevent[i],
            Csr::Sstatus => self.mstatus & SSTATUS_FILTER,
            Csr::Sie => self.mie & SIE_FILTER,
            Csr::Sip => self.mip & SIE_FILTER,
            Csr::Mhartid => self.mhartid,
            Csr::Mstatus => self.mstatus,
            Csr::Misa => self.misa,
            Csr::Mie => self.mie,
            Csr::Mtvec => self.mtvec,
            Csr::Mscratch => self.mscratch,
            Csr::Mip => self.mip,
            Csr::Mvendorid => self.mvendorid,
            Csr::Marchid => self.marchid,
            Csr::Mimpid => self.mimpid,
            Csr::Mcycle => self.mcycle,
            Csr::Minstret => self.minstret,
            Csr::Mcountinhibit => self.mcountinhibit,
            Csr::Mcounteren => self.mcounteren,
            Csr::Menvcfg => self.menvcfg,
            Csr::Mseccfg => self.mseccfg,
            Csr::Mconfigptr => self.mconfigptr,
            Csr::Medeleg => self.medeleg,
            Csr::Mideleg => self.mideleg,
            Csr::Mtinst => self.mtinst,
            Csr::Mepc => self.mepc,
            Csr::Mcause => self.mcause,
            Csr::Mtval => self.mtval,
            Csr::Stvec => self.stvec,
            Csr::Scounteren => self.scounteren,
            Csr::Senvcfg => self.senvcfg,
            Csr::Sscratch => self.sscratch,
            Csr::Sepc => self.sepc,
            Csr::Scause => self.scause,
            Csr::Stval => self.stval,
            Csr::Satp => self.satp,
            Csr::Scontext => self.scontext,
            Csr::Hstatus => self.hstatus,
            Csr::Hedeleg => self.hedeleg,
            Csr::Hideleg => self.hideleg,
            Csr::Hvip => self.hvip,
            Csr::Hip => self.hip,
            Csr::Hie => self.hie,
            Csr::Hgeip => self.hgeip,
            Csr::Hgeie => self.hgeie,
            Csr::Henvcfg => self.henvcfg,
            Csr::Hcounteren => self.hcounteren,
            Csr::Htimedelta => self.htimedelta,
            Csr::Htval => self.htval,
            Csr::Htinst => self.htinst,
            Csr::Hgatp => self.hgatp,
            Csr::Vsstatus => self.vsstatus,
            Csr::Vsie => self.vsie,
            Csr::Vstvec => self.vstvec,
            Csr::Vsscratch => self.vsscratch,
            Csr::Vsepc => self.vsepc,
            Csr::Vscause => self.vscause,
            Csr::Vstval => self.vstval,
            Csr::Vsip => self.vsip,
            Csr::Vsatp => self.vsatp,
            _ => 0,
        }
    }

    /// Writes `value` to `csr`.
    pub fn write(&mut self, csr: Csr, value: u64)
        requires
            old(self).wf(),
            csr.is_supported(),
        ensures
            final(self).wf(),
            VirtCsr::written(*old(self), *final(self), csr, value),
    {
        match csr {
            Csr::Pmpcfg(i) => self.pmpcfg.set(i, value),
            Csr::Pmpaddr(i) => self.pmpaddr.set(i, value),
            Csr::Mhpmcounter(i) => self.mhpmcounter.set(i, value),
            Csr::Mhpmevent(i) => self.mhpmevent.set(i, value),
            Csr::Sstatus => self.mstatus = (self.mstatus & !SSTATUS_FILTER) | (value & SSTATUS_FILTER),
            Csr::Sie => self.mie = (self.mie & !SIE_FILTER) | (value & SIE_FILTER),
            Csr::Sip => self.mip = (self.mip & !SIE_FILTER) | (value & SIE_FILTER),
            Csr::Hgeip | Csr::Mhartid => {},
            Csr::Mstatus => self.mstatus = value,
            Csr::Misa => self.misa = value,
            Csr::Mie => self.mie = value,
            Csr::Mtvec => self.mtvec = value,
            Csr::Mscratch => self.mscratch = value,
            Csr::Mip => self.mip = value,
            Csr::Mvendorid => self.mvendorid = value,
            Csr::Marchid => self.marchid = value,
            Csr::Mimpid => self.mimpid = value,
            Csr::Mcycle => self.mcycle = value,
            Csr::Minstret => self.minstret = value,
            Csr::Mcountinhibit => self.mcountinhibit = value,
            Csr::Mcounteren => self.mcounteren = value,
            Csr::Menvcfg => self.menvcfg = value,
            Csr::Mseccfg => self.mseccfg = value,
            Csr::Mconfigptr => self.mconfigptr = value,
            Csr::Medeleg => self.medeleg = value,
            Csr::Mideleg => self.mideleg = value,
            Csr::Mtinst => self.mtinst = value,
            Csr::Mepc => self.mepc = value,
            Csr::Mcause => self.mcause = value,
            Csr::Mtval => self.mtval = value,
            Csr::Stvec => self.stvec = value,
            Csr::Scounteren => self.scounteren = value,
            Csr::Senvcfg => self.senvcfg = value,
            Csr::Sscratch => self.sscratch = value,
            Csr::Sepc => self.sepc = value,
            Csr::Scause => self.scause = value,
            Csr::Stval => self.stval = value,
            Csr::Satp => self.satp = value,
            Csr::Scontext => self.scontext = value,
            Csr::Hstatus => self.hstatus = value,
            Csr::Hedeleg => self.hedeleg = value,
            Csr::Hideleg => self.hideleg = value,
            Csr::Hvip => self.hvip = value,
            Csr::Hip => self.hip = value,
            Csr::Hie => self.hie = value,
            Csr::Hgeie => self.hgeie = value,
            Csr::Henvcfg => self.henvcfg = value,
            Csr::Hcounteren => self.hcounteren = value,
            Csr::Htimedelta => self.htimedelta = value,
            Csr::Htval => self.htval = value,
            Csr::Htinst => self.htinst = value,
            Csr::Hgatp => self.hgatp = value,
            Csr::Vsstatus => self.vsstatus = value,
            Csr::Vsie => self.vsie = value,
            Csr::Vstvec => self.vstvec = value,
            Csr::Vsscratch => self.vsscratch = value,
            Csr::Vsepc => self.vsepc = value,
            Csr::Vscause => self.vscause = value,
            Csr::Vstval => self.vstval = value,
            Csr::Vsip => self.vsip = value,
            Csr::Vsatp => self.vsatp = value,
            _ => {},
        }
    }
}

/// `n` zeros.
fn zeros(n: usize) -> (r: Vec<u64>)
    ensures
        r@.len() == n,
{
    let mut v: Vec<u64> = Vec::new();
    let mut i: usize = 0;
    while i < n
        invariant
            i <= n,
            v@.len() == i,
        decreases n - i,
    {
        v.push(0);
        i = i + 1;
    }
    v
}

/// Reading back a register the guest may write gives the written value within the register's
/// legal mask.
pub proof fn lemma_write_then_read(old: VirtCsr, new: VirtCsr, csr: Csr, value: u64)
    requires
        old.wf(),
        csr.is_writable(),
        VirtCsr::written(old, new, csr, value),
    ensures
        new.read_spec(csr) == value & csr.legal_mask(),
{
    assert(value & u64::MAX == value) by (bit_vector);
    let m = old.mstatus;
    let e = old.mie;
    let p = old.mip;
    assert(((m & !SSTATUS_FILTER) | (value & SSTATUS_FILTER)) & SSTATUS_FILTER == value & SSTATUS_FILTER)
        by (bit_vector);
    assert(((e & !SIE_FILTER) | (value & SIE_FILTER)) & SIE_FILTER == value & SIE_FILTER)
        by (bit_vector);
    assert(((p & !SIE_FILTER) | (value & SIE_FILTER)) & SIE_FILTER == value & SIE_FILTER)
        by (bit_vector);
}

/// The host-side model of the hardware: a CSR bank standing for the physical registers.
#[derive(Debug)]
pub struct HostArch {
    pub csr: VirtCsr,
}

impl HostArch {
    pub fn new() -> (r: Self)
        ensures
            r.csr.wf(),
    {
        HostArch { csr: VirtCsr::new() }
    }

    /// The capabilities of the modelled hart: every interrupt, both environment configuration
    /// registers, 16 PMP entries, and the S extension only.
    pub fn detect_hardware() -> (r: HardwareCapability)
        ensures
            r == (HardwareCapability {
                interrupts: usize::MAX,
                available_reg: RegistersCapability { menvcfg: true, senvcfg: true, nb_pmp: 16 },
                extensions: ExtensionsCapability {
                    has_h_extension: false,
                    has_s_extension: true,
                    has_f_extension: false,
                    has_d_extension: false,
                    has_q_extension: false,
                },
                hart: 0,
            }),
    {
        HardwareCapability {
            interrupts: usize::MAX,
            available_reg: RegistersCapability { menvcfg: true, senvcfg: true, nb_pmp: 16 },
            extensions: ExtensionsCapability {
                has_h_extension: false,
                has_s_extension: true,
                has_f_extension: false,
                has_d_extension: false,
                has_q_extension: false,
            },
            hart: 0,
        }
    }

    /// The instruction that trapped, when the trap recorded it: an illegal instruction with a
    /// non-zero `mtval`. Otherwise the caller must fetch it from memory at `mepc`.
    pub fn get_raw_faulting_instr(trap_info: &TrapInfo) -> (r: Option<u64>)
        ensures
            r == if trap_info.mcause == 2 && trap_info.mtval != 0 {
                Some(trap_info.mtval)
            } else {
                None::<u64>
            },
    {
        if trap_info.mcause == 2 && trap_info.mtval != 0 {
            Some(trap_info.mtval)
        } else {
            None
        }
    }
}

/// The hardware operations the monitor relies on, stated over the bank of CSRs that the
/// hardware holds.
pub trait Architecture {
    /// The CSRs as the hardware holds them.
    spec fn csr_bank(&self) -> VirtCsr;

    /// Reads a CSR.
    fn read_csr(&self, csr: Csr) -> (r: u64)
        requires
            self.csr_bank().wf(),
            csr.is_supported(),
        ensures
            r == self.csr_bank().read_spec(csr),
    ;

    /// Writes a CSR and returns its previous value.
    fn write_csr(&mut self, csr: Csr, value: u64) -> (r: u64)
        requires
            old(self).csr_bank().wf(),
            csr.is_supported(),
        ensures
            final(self).csr_bank().wf(),
            r == old(self).csr_bank().read_spec(csr),
            VirtCsr::written(old(self).csr_bank(), final(self).csr_bank(), csr, value),
    ;

    /// Clears the bits of `bits_mask` in a CSR.
    fn clear_csr_bits(&mut self, csr: Csr, bits_mask: u64)
        requires
            old(self).csr_bank().wf(),
            csr.is_supported(),
        ensures
            final(self).csr_bank().wf(),
            VirtCsr::written(old(self).csr_bank(), final(self).csr_bank(), csr, old(self).csr_bank().read_spec(csr) & !bits_mask),
    ;

    /// Sets the bits of `bits_mask` in a CSR.
    fn set_csr_bits(&mut self, csr: Csr, bits_mask: u64)
        requires
            old(self).csr_bank().wf(),
            csr.is_supported(),
        ensures
            final(self).csr_bank().wf(),
            VirtCsr::written(old(self).csr_bank(), final(self).csr_bank(), csr, old(self).csr_bank().read_spec(csr) | bits_mask),
    ;

    /// Commits the monitor's PMP state to the registers: the first `nb_pmp` address registers
    /// and, with at least eight entries, `pmpcfg0`.
    fn write_pmp(&mut self, pmp: &PmpGroup) -> (r: PmpFlush)
        requires
            old(self).csr_bank().wf(),
            pmp.wf(),
            pmp.nb_pmp <= PMP_ADDR_COUNT,
        ensures
            final(self).csr_bank().wf(),
            VirtCsr::pmp_committed(old(self).csr_bank(), final(self).csr_bank(), *pmp),
            r == (PmpFlush { sfence_vma: true, hfence_gvma: true }),
    ;

    /// Sets the MPP field of `mstatus` to `mode` and returns the mode it held, which may not be
    /// the reserved pattern.
    fn set_mpp(&mut self, mode: Mode) -> (r: Mode)
        requires
            old(self).csr_bank().wf(),
            (old(self).csr_bank().mstatus & MSTATUS_MPP_FILTER) >> 11u64 != 2,
        ensures
            final(self).csr_bank().wf(),
            final(self).csr_bank() == (VirtCsr {
                mstatus: (old(self).csr_bank().mstatus & !MSTATUS_MPP_FILTER) | ((mode.bits() as u64) << 11u64),
                ..old(self).csr_bank()
            }),
            r.bits() == (old(self).csr_bank().mstatus & MSTATUS_MPP_FILTER) >> 11u64,
    ;
}

impl Architecture for HostArch {
    open spec fn csr_bank(&self) -> VirtCsr {
        self.csr
    }

    fn read_csr(&self, csr: Csr) -> (r: u64) {
        self.csr.read(csr)
    }

    fn write_csr(&mut self, csr: Csr, value: u64) -> (r: u64) {
        let previous = self.csr.read(csr);
        self.csr.write(csr, value);
        previous
    }

    fn clear_csr_bits(&mut self, csr: Csr, bits_mask: u64) {
        let value = self.csr.read(csr);
        self.csr.write(csr, value & !bits_mask);
    }

    fn set_csr_bits(&mut self, csr: Csr, bits_mask: u64) {
        let value = self.csr.read(csr);
        self.csr.write(csr, value | bits_mask);
    }

    fn write_pmp(&mut self, pmp: &PmpGroup) -> (r: PmpFlush) {
        let n = pmp.nb_pmp;
        let mut i: usize = 0;
        while i < n
            invariant
                i <= n,
                n <= PMP_ADDR_COUNT,
                pmp.wf(),
                old(self).csr.wf(),
                self.csr.wf(),
                self.csr.pmpcfg == old(self).csr.pmpcfg,
                self.csr == (VirtCsr { pmpaddr: self.csr.pmpaddr, ..old(self).csr }),
                forall|j: int|
                    0 <= j < old(self).csr.pmpaddr@.len() ==> #[trigger] self.csr.pmpaddr@[j] == if j < i {
                        pmp.pmpaddr@[j] as u64
                    } else {
                        old(self).csr.pmpaddr@[j]
                    },
            decreases n - i,
        {
            self.csr.pmpaddr.set(i, pmp.pmpaddr[i] as u64);
            i = i + 1;
        }
        if n >= 8 {
            self.csr.pmpcfg.set(0, pmp.pmpcfg0);
        }
        PmpFlush { sfence_vma: true, hfence_gvma: true }
    }

    fn set_mpp(&mut self, mode: Mode) -> (r: Mode) {
        let previous = self.csr.mstatus;
        let bits = mode.to_bits() as u64;
        self.csr.mstatus = (previous & !MSTATUS_MPP_FILTER) | (bits << 11u64);
        let b = (previous & MSTATUS_MPP_FILTER) >> 11u64;
        assert((previous & (0b11u64 << 11u64)) >> 11u64 <= 3) by (bit_vector);
        if b == 0 {
            Mode::U
        } else if b == 1 {
            Mode::S
        } else {
            Mode::M
        }
    }
}

} // verus!

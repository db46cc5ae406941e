use vstd::prelude::*;

verus! {

/// Offset of the MPP field of `mstatus`.
pub const MPP_OFFSET: usize = 11;

/// Mask of the MPP field of `mstatus`.
pub const MPP_FILTER: usize = 0b11 << 11;

/// Privilege modes.
#[derive(Clone, Copy, Debug, PartialEq, Eq, Structural)]
pub enum Mode {
    /// User
    U,
    /// Supervisor
    S,
    /// Machine
    M,
}

/// Where the virtualised hart runs: the virtual M-mode firmware or the S/U-mode payload.
#[derive(Clone, Copy, Debug, PartialEq, Eq, Structural)]
pub enum ExecutionMode {
    Firmware,
    Payload,
}

/// The two MPP bits of `mstatus`.
pub open spec fn mpp_bits(mstatus: usize) -> usize {
    (mstatus & MPP_FILTER) >> MPP_OFFSET
}

/// The privilege mode that the bit pattern `b` of an MPP field encodes (2 is reserved).
pub open spec fn mode_of_bits(b: usize) -> Mode {
    if b == 0 {
        Mode::U
    } else if b == 1 {
        Mode::S
    } else {
        Mode::M
    }
}

impl Mode {
    pub open spec fn bits(self) -> usize {
        match self {
            Mode::U => 0,
            Mode::S => 1,
            Mode::M => 3,
        }
    }

    pub open spec fn exec_mode(self) -> ExecutionMode {
        match self {
            Mode::M => ExecutionMode::Firmware,
            _ => ExecutionMode::Payload,
        }
    }

    /// Returns the bit pattern corresponding to the given mode.
    pub fn to_bits(self) -> (r: usize)
        ensures
            r == self.bits(),
            mode_of_bits(r) == self,
    {
        match self {
            Mode::U => 0,
            Mode::S => 1,
            Mode::M => 3,
        }
    }

    /// Returns the execution mode corresponding to the virtual mode.
    pub fn to_exec_mode(self) -> (r: ExecutionMode)
        ensures
            r == self.exec_mode(),
    {
        match self {
            Mode::M => ExecutionMode::Firmware,
            _ => ExecutionMode::Payload,
        }
    }
}

/// Returns the mode in the MPP field of `mstatus_reg`, which may not hold the reserved pattern.
pub fn parse_mpp_return_mode(mstatus_reg: usize) -> (r: Mode)
    requires
        mpp_bits(mstatus_reg) != 2,
    ensures
        r == mode_of_bits(mpp_bits(mstatus_reg)),
        r.bits() == mpp_bits(mstatus_reg),
{
    let b = (mstatus_reg & MPP_FILTER) >> MPP_OFFSET;
    assert(((mstatus_reg & (0b11usize << 11usize)) >> 11usize) <= 3) by (bit_vector);
    if b == 0 {
        Mode::U
    } else if b == 1 {
        Mode::S
    } else {
        Mode::M
    }
}

/// Data widths of memory accesses.
#[derive(Clone, Copy, Debug, PartialEq, Eq, Structural)]
pub enum Width {
    Byte,
    Byte2,
    Byte4,
    Byte8,
}

impl Width {
    pub open spec fn bits(self) -> usize {
        match self {
            Width::Byte => 8,
            Width::Byte2 => 16,
            Width::Byte4 => 32,
            Width::Byte8 => 64,
        }
    }

    pub fn to_bits(self) -> (r: usize)
        ensures
            r == self.bits(),
    {
        match self {
            Width::Byte => 8,
            Width::Byte2 => 16,
            Width::Byte4 => 32,
            Width::Byte8 => 64,
        }
    }

    pub fn to_bytes(self) -> (r: usize)
        ensures
            r == self.bits() / 8,
    {
        self.to_bits() / 8
    }

    /// The width with `value` bits, if any.
    pub fn from_bits(value: usize) -> (r: Option<Width>)
        ensures
            r is Some <==> (value == 8 || value == 16 || value == 32 || value == 64),
            r matches Some(w) ==> w.bits() == value,
    {
        match value {
            8 => Some(Width::Byte),
            16 => Some(Width::Byte2),
            32 => Some(Width::Byte4),
            64 => Some(Width::Byte8),
            _ => None,
        }
    }
}

/// Presence of optional registers.
#[derive(Clone, Copy, Debug, PartialEq, Eq, Structural)]
pub struct RegistersCapability {
    /// The machine environment configuration register is present.
    pub menvcfg: bool,
    /// The supervisor environment configuration register is present.
    pub senvcfg: bool,
    /// The number of implemented PMP registers.
    pub nb_pmp: usize,
}

/// Presence of optional extensions.
#[derive(Clone, Copy, Debug, PartialEq, Eq, Structural)]
pub struct ExtensionsCapability {
    pub has_h_extension: bool,
    pub has_s_extension: bool,
    pub has_f_extension: bool,
    pub has_d_extension: bool,
    pub has_q_extension: bool,
}

/// What one hart offers, probed once at boot on that hart.
#[derive(Clone, Copy, Debug, PartialEq, Eq, Structural)]
pub struct HardwareCapability {
    /// Bitmap of valid interrupts, marks valid bits in `mie` and `mip`.
    pub interrupts: usize,
    pub available_reg: RegistersCapability,
    pub extensions: ExtensionsCapability,
    /// The hart ID, as read from `mhartid`.
    pub hart: usize,
}

} // verus!

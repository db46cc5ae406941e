use vstd::prelude::*;

verus! {

/// SBI return code of a successful call.
pub const SBI_SUCCESS: usize = 0;

/// SBI error code `-1` (failed), in two's complement.
pub const SBI_ERR_FAILED: usize = usize::MAX;

/// SBI error code `-2` (not supported), in two's complement.
pub const SBI_ERR_NOT_SUPPORTED: usize = usize::MAX - 1;

/// SBI error code `-3` (invalid parameter), in two's complement.
pub const SBI_ERR_INVALID_PARAM: usize = usize::MAX - 2;

/// SBI error code `-4` (denied), in two's complement.
pub const SBI_ERR_DENIED: usize = usize::MAX - 3;

/// The kinds of error of the security monitor.
#[derive(Clone, Copy, Debug, PartialEq, Eq, Structural)]
pub enum Error {
    Reinitialization(),
    NotEnoughMemory(),
    NotEnoughPmps(),
    TooMuchMemory(),
    AddressNotInConfidentialMemory(),
    AddressNotInNonConfidentialMemory(),
    AddressNotAligned(),
    OutOfPages(),
    InvalidParameter(),
    InvalidCall(usize, usize),
    InterruptSendingError(usize),
}

/// The SBI error code that reports `e` to a guest.
pub open spec fn sbi_error_code_of(e: Error) -> usize {
    match e {
        Error::InvalidCall(_, _) => SBI_ERR_NOT_SUPPORTED,
        Error::InvalidParameter() | Error::AddressNotAligned() => SBI_ERR_INVALID_PARAM,
        Error::AddressNotInConfidentialMemory()
        | Error::AddressNotInNonConfidentialMemory() => SBI_ERR_DENIED,
        _ => SBI_ERR_FAILED,
    }
}

impl Error {
    /// The stable SBI error code placed in `a0` when this error is reported to a guest.
    pub fn sbi_error_code(&self) -> (r: usize)
        ensures
            r == sbi_error_code_of(*self),
    {
        match self {
            Error::InvalidCall(_, _) => SBI_ERR_NOT_SUPPORTED,
            Error::InvalidParameter() | Error::AddressNotAligned() => SBI_ERR_INVALID_PARAM,
            Error::AddressNotInConfidentialMemory()
            | Error::AddressNotInNonConfidentialMemory() => SBI_ERR_DENIED,
            _ => SBI_ERR_FAILED,
        }
    }
}

} // verus!

use vstd::prelude::*;

verus! {

/// Mask of the MODE bits of `mtvec`.
pub const MODE_FILTER: usize = 0b11;

/// Mask of the BASE bits of `mtvec`.
pub const BASE_FILTER: usize = usize::MAX - 0b11;

/// Trap-vector modes.
#[derive(Clone, Copy, Debug, PartialEq, Eq, Structural)]
pub enum Mode {
    Direct,
    Vectored,
}

/// Returns the trap-vector mode of `mtvec`, whose MODE field must hold 0 or 1.
pub fn get_mode(mtvec: usize) -> (r: Mode)
    requires
        mtvec & MODE_FILTER < 2,
    ensures
        r == (if mtvec & MODE_FILTER == 0 {
            Mode::Direct
        } else {
            Mode::Vectored
        }),
{
    if mtvec & MODE_FILTER == 0 {
        Mode::Direct
    } else {
        Mode::Vectored
    }
}

} // verus!

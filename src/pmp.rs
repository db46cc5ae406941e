use vstd::prelude::*;

use crate::arch::HardwareCapability;
use crate::error::Error;

verus! {

/// Read, write and execute permission bits of a PMP configuration byte.
pub const PMP_PERMISSION_RWX_MASK: u64 = 0b111;

/// Address-matching field of a PMP configuration byte set to TOR (top of range).
pub const PMP_TOR_MASK: u64 = 0b01000;

/// The address-matching field of a PMP configuration byte; zero means OFF.
pub const PMP_ADDRESS_MATCHING_MASK: u64 = 0b11000;

/// PMP address registers hold an address shifted right by this amount.
pub const PMP_ADDRESS_SHIFT: usize = 2;

/// Number of PMP address registers the monitor keeps.
pub const PMP_ADDR_COUNT: usize = 16;

/// The entry holding the start of confidential memory.
pub const CONFIDENTIAL_PMP_START_ENTRY: usize = 4;

/// The entry holding the end of confidential memory, in TOR mode while it is open.
pub const CONFIDENTIAL_PMP_END_ENTRY: usize = 5;

/// The fewest PMP entries the monitor can work with.
pub const MINIMUM_NUMBER_OF_PMP_REQUIRED: usize = 4;

/// Bits set in `pmpcfg0` to open confidential memory.
pub const OPEN_CONFIDENTIAL_MASK: u64 = (PMP_PERMISSION_RWX_MASK << 32) | ((PMP_TOR_MASK
    | PMP_PERMISSION_RWX_MASK) << 40);

/// Bits cleared in `pmpcfg0` to close confidential memory.
pub const CLOSE_CONFIDENTIAL_MASK: u64 = (PMP_ADDRESS_MATCHING_MASK << 32) | (
PMP_ADDRESS_MATCHING_MASK << 40);

/// Translation caches must be flushed, with `sfence.vma` and `hfence.gvma`, before the new PMP
/// configuration is relied upon.
#[must_use]
#[derive(Clone, Copy, Debug, PartialEq, Eq, Structural)]
pub struct PmpFlush {
    pub sfence_vma: bool,
    pub hfence_gvma: bool,
}

/// The address-matching mode of PMP entry 4 in `pmpcfg0`.
pub open spec fn start_entry_mode(cfg: u64) -> u64 {
    (cfg >> 35u64) & 0b11
}

/// The address-matching mode of PMP entry 5 in `pmpcfg0`.
pub open spec fn end_entry_mode(cfg: u64) -> u64 {
    (cfg >> 43u64) & 0b11
}

/// The permission bits of PMP entry 5 in `pmpcfg0`.
pub open spec fn end_entry_permissions(cfg: u64) -> u64 {
    (cfg >> 40u64) & 0b111
}

/// Neither entry reserved for confidential memory matches any address.
pub open spec fn confidential_memory_closed(cfg: u64) -> bool {
    start_entry_mode(cfg) == 0 && end_entry_mode(cfg) == 0
}

/// Entries 4 and 5 form one TOR region with read, write and execute permission.
pub open spec fn confidential_memory_open(cfg: u64) -> bool {
    start_entry_mode(cfg) == 0 && end_entry_mode(cfg) == 1 && end_entry_permissions(cfg) == 0b111
}

/// Whether `pmpcfg0` leaves confidential memory closed.
pub fn is_confidential_memory_closed(cfg: u64) -> (r: bool)
    ensures
        r == confidential_memory_closed(cfg),
{
    (cfg >> 35u64) & 0b11 == 0 && (cfg >> 43u64) & 0b11 == 0
}

/// Whether `pmpcfg0` opens confidential memory as one TOR region.
pub fn is_confidential_memory_open(cfg: u64) -> (r: bool)
    ensures
        r == confidential_memory_open(cfg),
{
    (cfg >> 35u64) & 0b11 == 0 && (cfg >> 43u64) & 0b11 == 1 && (cfg >> 40u64) & 0b111 == 0b111
}

/// The PMP registers of one hart, as the monitor programs them.
#[derive(Debug)]
pub struct PmpGroup {
    /// Number of PMP entries the hardware implements.
    pub nb_pmp: usize,
    pub pmpaddr: Vec<usize>,
    /// The configuration register of entries 0 to 7.
    pub pmpcfg0: u64,
}

impl PmpGroup {
    pub open spec fn wf(&self) -> bool {
        self.pmpaddr@.len() == PMP_ADDR_COUNT
    }

    /// All entries off, for a hart with `nb_pmp` PMP entries.
    pub fn new(nb_pmp: usize) -> (r: Self)
        ensures
            r.wf(),
            r.nb_pmp == nb_pmp,
            r.pmpcfg0 == 0,
            forall|i: int| 0 <= i < PMP_ADDR_COUNT ==> #[trigger] r.pmpaddr@[i] == 0,
    {
        let mut pmpaddr: Vec<usize> = Vec::new();
        let mut i: usize = 0;
        while i < PMP_ADDR_COUNT
            invariant
                i <= PMP_ADDR_COUNT,
                pmpaddr@.len() == i,
                forall|j: int| 0 <= j < i ==> #[trigger] pmpaddr@[j] == 0,
            decreases PMP_ADDR_COUNT - i,
        {
            pmpaddr.push(0);
            i = i + 1;
        }
        PmpGroup { nb_pmp, pmpaddr, pmpcfg0: 0 }
    }
}

/// The monitor's own state on one hart.
#[derive(Debug)]
pub struct MiralisContext {
    pub hw: HardwareCapability,
    pub pmp: PmpGroup,
}

impl MiralisContext {
    pub fn new(hw: HardwareCapability) -> (r: Self)
        ensures
            r.hw == hw,
            r.pmp.wf(),
            r.pmp.nb_pmp == hw.available_reg.nb_pmp,
            r.pmp.pmpcfg0 == 0,
    {
        MiralisContext { hw, pmp: PmpGroup::new(hw.available_reg.nb_pmp) }
    }
}

/// Reserves PMP entries 4 and 5 as a TOR pair around confidential memory, closed. Fails with
/// `NotEnoughPmps` on a hart with fewer than four PMP entries.
pub fn split_memory_into_confidential_and_non_confidential(
    mctx: &mut MiralisContext,
    confidential_memory_start: usize,
    confidential_memory_end: usize,
) -> (r: Result<PmpFlush, Error>)
    requires
        old(mctx).pmp.wf(),
    ensures
        final(mctx).pmp.wf(),
        final(mctx).hw == old(mctx).hw,
        final(mctx).pmp.nb_pmp == old(mctx).pmp.nb_pmp,
        r is Err <==> old(mctx).pmp.nb_pmp < MINIMUM_NUMBER_OF_PMP_REQUIRED,
        r is Err ==> r->Err_0 == Error::NotEnoughPmps() && final(mctx).pmp.pmpaddr@ == old(
            mctx,
        ).pmp.pmpaddr@ && final(mctx).pmp.pmpcfg0 == old(mctx).pmp.pmpcfg0,
        r is Ok ==> {
            &&& final(mctx).pmp.pmpaddr@ == old(mctx).pmp.pmpaddr@.update(
                4,
                confidential_memory_start >> PMP_ADDRESS_SHIFT,
            ).update(5, confidential_memory_end >> PMP_ADDRESS_SHIFT)
            &&& final(mctx).pmp.pmpcfg0 == old(mctx).pmp.pmpcfg0 & !CLOSE_CONFIDENTIAL_MASK
            &&& confidential_memory_closed(final(mctx).pmp.pmpcfg0)
            &&& r->Ok_0 == PmpFlush { sfence_vma: true, hfence_gvma: true }
        },
{
    if mctx.pmp.nb_pmp < MINIMUM_NUMBER_OF_PMP_REQUIRED {
        return Err(Error::NotEnoughPmps());
    }
    mctx.pmp.pmpaddr.set(CONFIDENTIAL_PMP_START_ENTRY, confidential_memory_start >> PMP_ADDRESS_SHIFT);
    mctx.pmp.pmpaddr.set(CONFIDENTIAL_PMP_END_ENTRY, confidential_memory_end >> PMP_ADDRESS_SHIFT);
    Ok(close_access_to_confidential_memory(&mut mctx.pmp))
}

/// Opens confidential memory: read, write and execute on entry 4, TOR with read, write and
/// execute on entry 5. From a closed configuration this yields an open one.
pub fn open_access_to_confidential_memory(pmp: &mut PmpGroup) -> (r: PmpFlush)
    ensures
        final(pmp).nb_pmp == old(pmp).nb_pmp,
        final(pmp).pmpaddr == old(pmp).pmpaddr,
        final(pmp).pmpcfg0 == old(pmp).pmpcfg0 | OPEN_CONFIDENTIAL_MASK,
        confidential_memory_closed(old(pmp).pmpcfg0) ==> confidential_memory_open(
            final(pmp).pmpcfg0,
        ),
        r == clear_caches_spec(),
{
    let old_cfg = pmp.pmpcfg0;
    pmp.pmpcfg0 = old_cfg | OPEN_CONFIDENTIAL_MASK;
    assert(((old_cfg >> 35u64) & 0b11 == 0 && (old_cfg >> 43u64) & 0b11 == 0) ==> (((old_cfg
        | ((0b111u64 << 32u64) | ((0b01000u64 | 0b111u64) << 40u64))) >> 35u64) & 0b11
        == 0 && ((old_cfg | ((0b111u64 << 32u64) | ((0b01000u64 | 0b111u64) << 40u64)))
        >> 43u64) & 0b11 == 1 && ((old_cfg | ((0b111u64 << 32u64) | ((0b01000u64
        | 0b111u64) << 40u64))) >> 40u64) & 0b111 == 0b111)) by (bit_vector);
    clear_caches()
}

/// Closes confidential memory: clears the address-matching field of entries 4 and 5, leaving
/// their permission bits, so that neither matches any address.
pub fn close_access_to_confidential_memory(pmp: &mut PmpGroup) -> (r: PmpFlush)
    ensures
        final(pmp).nb_pmp == old(pmp).nb_pmp,
        final(pmp).pmpaddr == old(pmp).pmpaddr,
        final(pmp).pmpcfg0 == old(pmp).pmpcfg0 & !CLOSE_CONFIDENTIAL_MASK,
        confidential_memory_closed(final(pmp).pmpcfg0),
        r == clear_caches_spec(),
{
    let old_cfg = pmp.pmpcfg0;
    pmp.pmpcfg0 = old_cfg & !CLOSE_CONFIDENTIAL_MASK;
    assert((((old_cfg & !((0b11000u64 << 32u64) | (0b11000u64 << 40u64))) >> 35u64) & 0b11
        == 0) && (((old_cfg & !((0b11000u64 << 32u64) | (0b11000u64 << 40u64))) >> 43u64)
        & 0b11 == 0)) by (bit_vector);
    clear_caches()
}

pub open spec fn clear_caches_spec() -> PmpFlush {
    PmpFlush { sfence_vma: true, hfence_gvma: true }
}

/// PMP settings can be cached and used speculatively, so both translation caches are flushed.
fn clear_caches() -> (r: PmpFlush)
    ensures
        r == clear_caches_spec(),
{
    PmpFlush { sfence_vma: true, hfence_gvma: true }
}

} // verus!

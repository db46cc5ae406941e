use vstd::prelude::*;

use crate::error::Error;

verus! {

/// `a` rounded up to the next multiple of `n`.
pub open spec fn align_up(a: int, n: int) -> int {
    if a % n == 0 {
        a
    } else {
        a + (n - a % n)
    }
}

/// An address inside confidential memory.
#[derive(Clone, Copy, Debug, PartialEq, Eq, Structural)]
pub struct ConfidentialMemoryAddress {
    pub address: usize,
}

impl ConfidentialMemoryAddress {
    pub fn new(address: usize) -> (r: Self)
        ensures
            r.address == address,
    {
        ConfidentialMemoryAddress { address }
    }

    pub fn as_usize(&self) -> (r: usize)
        ensures
            r == self.address,
    {
        self.address
    }
}

/// An address inside non-confidential memory, owned by the untrusted hypervisor.
#[derive(Clone, Copy, Debug, PartialEq, Eq, Structural)]
pub struct NonConfidentialMemoryAddress {
    pub address: usize,
}

impl NonConfidentialMemoryAddress {
    /// Checks that `address` lies in the non-confidential memory of `layout`.
    pub fn new(address: usize, layout: &MemoryLayout) -> (r: Result<Self, Error>)
        ensures
            r is Ok <==> layout.in_non_confidential(address as int),
            r is Ok ==> r->Ok_0.address == address,
            r is Err ==> r->Err_0 == Error::AddressNotInNonConfidentialMemory(),
    {
        if layout.is_in_non_confidential_range(address) {
            Ok(NonConfidentialMemoryAddress { address })
        } else {
            Err(Error::AddressNotInNonConfidentialMemory())
        }
    }

    pub fn as_usize(&self) -> (r: usize)
        ensures
            r == self.address,
    {
        self.address
    }
}

/// An address in the guest-physical address space of a confidential VM.
#[derive(Clone, Copy, Debug, PartialEq, Eq, Structural)]
pub struct ConfidentialVmPhysicalAddress {
    pub address: usize,
}

impl ConfidentialVmPhysicalAddress {
    pub fn new(address: usize) -> (r: Self)
        ensures
            r.address == address,
    {
        ConfidentialVmPhysicalAddress { address }
    }

    pub fn usize(&self) -> (r: usize)
        ensures
            r == self.address,
    {
        self.address
    }
}

/// The non-confidential and confidential memory windows fixed at boot.
#[derive(Clone, Copy, Debug, PartialEq, Eq, Structural)]
pub struct MemoryLayout {
    pub non_confidential_memory_start: usize,
    pub non_confidential_memory_end: usize,
    pub confidential_memory_start: usize,
    pub confidential_memory_end: usize,
}

impl MemoryLayout {
    /// The windows are ordered, and confidential memory is a whole number of 4 KiB pages that
    /// starts on a 4 KiB boundary.
    pub open spec fn wf(&self) -> bool {
        &&& self.non_confidential_memory_start < self.non_confidential_memory_end
        &&& self.non_confidential_memory_end <= self.confidential_memory_start
        &&& self.confidential_memory_start <= self.confidential_memory_end
        &&& self.confidential_memory_start % 4096 == 0
        &&& (self.confidential_memory_end - self.confidential_memory_start) % 4096 == 0
    }

    pub open spec fn in_non_confidential(&self, a: int) -> bool {
        self.non_confidential_memory_start <= a < self.non_confidential_memory_end
    }

    /// Fixes the memory layout in `slot`, which must still be empty. The start of confidential
    /// memory is aligned up to 4 KiB and its end trimmed down so that it holds whole 4 KiB pages.
    /// Returns the first confidential address and the end of confidential memory.
    pub fn init(
        slot: &mut Option<MemoryLayout>,
        non_confidential_memory_start: usize,
        non_confidential_memory_end: usize,
        confidential_memory_start: usize,
        confidential_memory_end: usize,
    ) -> (r: Result<(ConfidentialMemoryAddress, usize), Error>)
        requires
            non_confidential_memory_start < non_confidential_memory_end,
            non_confidential_memory_end <= confidential_memory_start,
            confidential_memory_start < confidential_memory_end,
        ensures
            *old(slot) is Some ==> r == Err::<(ConfidentialMemoryAddress, usize), Error>(
                Error::Reinitialization(),
            ),
            *old(slot) is None && align_up(confidential_memory_start as int, 4096)
                >= confidential_memory_end ==> r == Err::<(ConfidentialMemoryAddress, usize), Error>(
                Error::NotEnoughMemory(),
            ),
            r is Err ==> *final(slot) == *old(slot),
            r is Ok <==> (*old(slot) is None && align_up(confidential_memory_start as int, 4096)
                < confidential_memory_end),
            r matches Ok((start, end)) ==> {
                let s = align_up(confidential_memory_start as int, 4096);
                &&& start.address == s
                &&& end == s + (confidential_memory_end - s) / 4096 * 4096
                &&& *final(slot) == Some(
                    MemoryLayout {
                        non_confidential_memory_start,
                        non_confidential_memory_end,
                        confidential_memory_start: start.address,
                        confidential_memory_end: end,
                    },
                )
                &&& final(slot).unwrap().wf()
            },
    {
        if slot.is_some() {
            return Err(Error::Reinitialization());
        }
        let rem = confidential_memory_start % 4096;
        let start: usize = if rem == 0 {
            confidential_memory_start
        } else {
            if confidential_memory_start > usize::MAX - (4096 - rem) {
                return Err(Error::NotEnoughMemory());
            }
            confidential_memory_start + (4096 - rem)
        };
        if start >= confidential_memory_end {
            return Err(Error::NotEnoughMemory());
        }
        let number_of_pages = (confidential_memory_end - start) / 4096;
        let end = start + number_of_pages * 4096;
        let layout = MemoryLayout {
            non_confidential_memory_start,
            non_confidential_memory_end,
            confidential_memory_start: start,
            confidential_memory_end: end,
        };
        *slot = Some(layout);
        Ok((ConfidentialMemoryAddress::new(start), end))
    }

    /// Offsets `address` by `offset_in_bytes`; fails unless the result is still below the end
    /// of confidential memory.
    pub fn confidential_address_at_offset(
        &self,
        address: &ConfidentialMemoryAddress,
        offset_in_bytes: usize,
    ) -> (r: Result<ConfidentialMemoryAddress, Error>)
        ensures
            r is Ok <==> address.address + offset_in_bytes < self.confidential_memory_end,
            r is Ok ==> r->Ok_0.address == address.address + offset_in_bytes,
            r is Err ==> r->Err_0 == Error::AddressNotInConfidentialMemory(),
    {
        if address.address < self.confidential_memory_end && offset_in_bytes
            < self.confidential_memory_end - address.address {
            Ok(ConfidentialMemoryAddress::new(address.address + offset_in_bytes))
        } else {
            Err(Error::AddressNotInConfidentialMemory())
        }
    }

    /// Like `confidential_address_at_offset`, and the result must also be below `upper_bound`,
    /// which may not lie beyond the end of confidential memory.
    pub fn confidential_address_at_offset_bounded(
        &self,
        address: &ConfidentialMemoryAddress,
        offset_in_bytes: usize,
        upper_bound: usize,
    ) -> (r: Result<ConfidentialMemoryAddress, Error>)
        ensures
            r is Ok <==> (upper_bound <= self.confidential_memory_end && address.address
                + offset_in_bytes < upper_bound),
            r is Ok ==> r->Ok_0.address == address.address + offset_in_bytes,
            r is Err ==> r->Err_0 == Error::AddressNotInConfidentialMemory(),
    {
        if upper_bound > self.confidential_memory_end {
            return Err(Error::AddressNotInConfidentialMemory());
        }
        if address.address < upper_bound && offset_in_bytes < upper_bound - address.address {
            self.confidential_address_at_offset(address, offset_in_bytes)
        } else {
            Err(Error::AddressNotInConfidentialMemory())
        }
    }

    /// Offsets `address` by `offset_in_bytes`; fails unless the result is still below the end
    /// of non-confidential memory.
    pub fn non_confidential_address_at_offset(
        &self,
        address: &NonConfidentialMemoryAddress,
        offset_in_bytes: usize,
    ) -> (r: Result<NonConfidentialMemoryAddress, Error>)
        ensures
            r is Ok <==> address.address + offset_in_bytes < self.non_confidential_memory_end,
            r is Ok ==> r->Ok_0.address == address.address + offset_in_bytes,
            r is Err ==> r->Err_0 == Error::AddressNotInNonConfidentialMemory(),
    {
        if address.address < self.non_confidential_memory_end && offset_in_bytes
            < self.non_confidential_memory_end - address.address {
            Ok(NonConfidentialMemoryAddress { address: address.address + offset_in_bytes })
        } else {
            Err(Error::AddressNotInNonConfidentialMemory())
        }
    }

    pub fn is_in_non_confidential_range(&self, address: usize) -> (r: bool)
        ensures
            r == self.in_non_confidential(address as int),
    {
        self.non_confidential_memory_start <= address && address < self.non_confidential_memory_end
    }

    /// The confidential window as `(start, end)`.
    pub fn confidential_memory_boundary(&self) -> (r: (usize, usize))
        ensures
            r == (self.confidential_memory_start, self.confidential_memory_end),
    {
        (self.confidential_memory_start, self.confidential_memory_end)
    }
}

} // verus!

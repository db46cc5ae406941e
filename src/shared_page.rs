use vstd::prelude::*;

use crate::error::Error;
use crate::memory_layout::{ConfidentialVmPhysicalAddress, MemoryLayout, NonConfidentialMemoryAddress};
use crate::page_size::PageSize;

verus! {

/// A 4 KiB page of non-confidential memory mapped into the address space of a confidential VM,
/// through which it talks with the hypervisor. The monitor never dereferences the hypervisor
/// address; it only maps it.
#[derive(Clone, Copy, Debug, PartialEq, Eq, Structural)]
pub struct SharedPage {
    pub hypervisor_address: NonConfidentialMemoryAddress,
    pub confidential_vm_address: ConfidentialVmPhysicalAddress,
}

/// Size of a shared page in bytes.
pub const SHARED_PAGE_BYTES: usize = 4096;

impl SharedPage {
    /// Checks that the whole page at `hypervisor_address` lies in non-confidential memory.
    pub fn new(
        hypervisor_address: NonConfidentialMemoryAddress,
        confidential_vm_address: ConfidentialVmPhysicalAddress,
        layout: &MemoryLayout,
    ) -> (r: Result<Self, Error>)
        ensures
            r is Ok <==> (layout.in_non_confidential(hypervisor_address.address as int)
                && hypervisor_address.address + 4095 < layout.non_confidential_memory_end),
            r is Ok ==> r->Ok_0 == (SharedPage { hypervisor_address, confidential_vm_address }),
            r is Err ==> r->Err_0 == Error::AddressNotInNonConfidentialMemory(),
    {
        if !layout.is_in_non_confidential_range(hypervisor_address.address) {
            return Err(Error::AddressNotInNonConfidentialMemory());
        }
        match layout.non_confidential_address_at_offset(&hypervisor_address, SHARED_PAGE_BYTES - 1) {
            Ok(_) => Ok(SharedPage { hypervisor_address, confidential_vm_address }),
            Err(e) => Err(e),
        }
    }

    pub fn page_size(&self) -> (r: PageSize)
        ensures
            r == PageSize::Size4KiB,
    {
        PageSize::Size4KiB
    }
}

/// No two pages of `s` are mapped at the same guest address.
pub open spec fn unique_guest_addresses(s: Seq<SharedPage>) -> bool {
    forall|i: int, j: int|
        0 <= i < s.len() && 0 <= j < s.len() && i != j ==> (#[trigger] s[i]).confidential_vm_address
            != (#[trigger] s[j]).confidential_vm_address
}

/// Some page of `s` is mapped at guest address `a`.
pub open spec fn maps(s: Seq<SharedPage>, a: ConfidentialVmPhysicalAddress) -> bool {
    exists|i: int| 0 <= i < s.len() && (#[trigger] s[i]).confidential_vm_address == a
}

/// The shared pages in the second-stage page table of a confidential VM.
#[derive(Debug)]
pub struct MemoryProtector {
    pub shared_pages: Vec<SharedPage>,
}

impl MemoryProtector {
    pub open spec fn wf(&self) -> bool {
        unique_guest_addresses(self.shared_pages@)
    }

    pub fn new() -> (r: Self)
        ensures
            r.wf(),
            r.shared_pages@.len() == 0,
    {
        MemoryProtector { shared_pages: Vec::new() }
    }

    /// Index of the page mapped at `address`, if any.
    fn find(&self, address: &ConfidentialVmPhysicalAddress) -> (r: Option<usize>)
        ensures
            r is None <==> !maps(self.shared_pages@, *address),
            r matches Some(i) ==> i < self.shared_pages@.len()
                && self.shared_pages@[i as int].confidential_vm_address == *address,
    {
        let mut i: usize = 0;
        while i < self.shared_pages.len()
            invariant
                i <= self.shared_pages@.len(),
                forall|j: int|
                    0 <= j < i ==> (#[trigger] self.shared_pages@[j]).confidential_vm_address
                        != *address,
            decreases self.shared_pages@.len() - i,
        {
            if self.shared_pages[i].confidential_vm_address.address == address.address {
                return Some(i);
            }
            i = i + 1;
        }
        None
    }

    /// Maps `page` at its guest address, which must be 4 KiB aligned and not mapped yet.
    pub fn map_shared_page(&mut self, page: SharedPage) -> (r: Result<(), Error>)
        requires
            old(self).wf(),
        ensures
            final(self).wf(),
            page.confidential_vm_address.address % 4096 != 0 ==> r == Err::<(), Error>(
                Error::AddressNotAligned(),
            ),
            r is Ok <==> (page.confidential_vm_address.address % 4096 == 0 && !maps(
                old(self).shared_pages@,
                page.confidential_vm_address,
            )),
            r is Ok ==> final(self).shared_pages@ == old(self).shared_pages@.push(page),
            r is Err ==> final(self).shared_pages@ == old(self).shared_pages@,
            r is Err && page.confidential_vm_address.address % 4096 == 0 ==> r->Err_0
                == Error::InvalidParameter(),
    {
        if page.confidential_vm_address.address % SHARED_PAGE_BYTES != 0 {
            return Err(Error::AddressNotAligned());
        }
        match self.find(&page.confidential_vm_address) {
            Some(_) => Err(Error::InvalidParameter()),
            None => {
                self.shared_pages.push(page);
                Ok(())
            },
        }
    }

    /// Removes the page mapped at `address` and returns its size.
    pub fn unmap_shared_page(&mut self, address: &ConfidentialVmPhysicalAddress) -> (r: Result<
        PageSize,
        Error,
    >)
        requires
            old(self).wf(),
        ensures
            final(self).wf(),
            r is Ok <==> maps(old(self).shared_pages@, *address),
            r is Ok ==> r->Ok_0 == PageSize::Size4KiB && exists|i: int|
                0 <= i < old(self).shared_pages@.len()
                    && old(self).shared_pages@[i].confidential_vm_address == *address
                    && final(self).shared_pages@ == old(self).shared_pages@.remove(i),
            r is Err ==> r->Err_0 == Error::InvalidParameter() && final(self).shared_pages@ == old(
                self,
            ).shared_pages@,
    {
        match self.find(address) {
            None => Err(Error::InvalidParameter()),
            Some(i) => {
                let removed = self.shared_pages.remove(i);
                Ok(removed.page_size())
            },
        }
    }
}

/// Mapping a page at a guest address that was not mapped and then unmapping that address
/// leaves the second-stage page table exactly as it was before the mapping.
pub proof fn lemma_map_then_unmap_restores(
    before: Seq<SharedPage>,
    page: SharedPage,
    mapped: Seq<SharedPage>,
    i: int,
    after: Seq<SharedPage>,
)
    requires
        unique_guest_addresses(before),
        !maps(before, page.confidential_vm_address),
        mapped == before.push(page),
        0 <= i < mapped.len(),
        mapped[i].confidential_vm_address == page.confidential_vm_address,
        after == mapped.remove(i),
    ensures
        after == before,
{
    if i < before.len() {
        assert(before[i] == mapped[i]);
        assert(maps(before, page.confidential_vm_address));
    }
    assert(i == before.len());
    assert(after =~= before);
}

} // verus!

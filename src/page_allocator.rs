use vstd::arithmetic::div_mod::lemma_fundamental_div_mod;
use vstd::prelude::*;

use crate::error::Error;
use crate::memory_layout::{ConfidentialMemoryAddress, MemoryLayout};
use crate::page_size::PageSize;

verus! {

/// A token of ownership over an unallocated, size-aligned region of confidential memory.
#[derive(Debug)]
pub struct Page {
    start_address: usize,
    size: PageSize,
}

impl Page {
    pub closed spec fn start(&self) -> int {
        self.start_address as int
    }

    pub closed spec fn page_size(&self) -> PageSize {
        self.size
    }

    /// First byte past the page.
    pub open spec fn end(&self) -> int {
        self.start() + self.page_size().bytes()
    }

    pub fn start_address(&self) -> (r: usize)
        ensures
            r == self.start(),
    {
        self.start_address
    }

    pub fn size(&self) -> (r: PageSize)
        ensures
            r == self.page_size(),
    {
        self.size
    }
}

/// The frame with index `j` of an allocator whose first frame is at `base` lies inside `p`.
pub open spec fn covers(p: Page, base: int, j: int) -> bool {
    p.start() <= base + j * 4096 < p.end()
}

/// The `n` frames from index `k` exist and are all free.
pub open spec fn block_free(free: Seq<bool>, k: int, n: int) -> bool {
    &&& 0 <= k
    &&& k + n <= free.len()
    &&& forall|j: int| k <= j < k + n ==> #[trigger] free[j]
}

/// Two pages share no byte.
pub open spec fn disjoint(p: Page, q: Page) -> bool {
    p.end() <= q.start() || q.end() <= p.start()
}

/// Tracks, for every 4 KiB frame of the confidential memory it manages, whether the frame is
/// free. A page of size `s` can be handed out where `s / 4 KiB` consecutive frames starting at
/// an `s`-aligned address are free, so released neighbours are available as one larger page
/// at once, as in a buddy allocator that merges eagerly.
pub struct PageAllocator {
    base_address: usize,
    free: Vec<bool>,
}

impl PageAllocator {
    /// Address of the first managed frame.
    pub closed spec fn base(&self) -> int {
        self.base_address as int
    }

    /// Which frames are free.
    pub closed spec fn frames(&self) -> Seq<bool> {
        self.free@
    }

    /// First byte past the managed memory.
    pub open spec fn limit(&self) -> int {
        self.base() + self.frames().len() * 4096
    }

    pub open spec fn wf(&self) -> bool {
        &&& self.base() % 4096 == 0
        &&& 0 <= self.base()
        &&& self.limit() <= usize::MAX
    }

    /// The address of frame `k` is aligned to `size`.
    pub open spec fn aligned_frame(&self, k: int, size: PageSize) -> bool {
        (self.base() + k * 4096) % (size.bytes() as int) == 0
    }

    /// Some `size`-aligned block of `size` bytes is entirely free.
    pub open spec fn can_acquire(&self, size: PageSize) -> bool {
        exists|k: int|
            #![trigger block_free(self.frames(), k, size.frames() as int)]
            self.aligned_frame(k, size) && block_free(self.frames(), k, size.frames() as int)
    }

    /// `p` lies inside the managed memory and every frame of it is handed out.
    pub open spec fn is_live(&self, p: Page) -> bool {
        &&& self.base() <= p.start()
        &&& p.end() <= self.limit()
        &&& p.start() % (p.page_size().bytes() as int) == 0
        &&& forall|j: int| 0 <= j < self.frames().len() && covers(p, self.base(), j) ==> !(
        #[trigger] self.frames()[j])
    }

    /// `p` lies inside the managed memory, is aligned to its size, and every frame of it is free.
    pub open spec fn is_free_page(&self, p: Page) -> bool {
        &&& self.base() <= p.start()
        &&& p.end() <= self.limit()
        &&& p.start() % (p.page_size().bytes() as int) == 0
        &&& forall|j: int| 0 <= j < self.frames().len() && covers(p, self.base(), j) ==> #[trigger] self.frames()[j]
    }

    /// `new` is `old` after the frames of every page in `pages` were given back.
    pub open spec fn released(old: PageAllocator, new: PageAllocator, pages: Seq<Page>) -> bool {
        &&& new.wf()
        &&& new.base() == old.base()
        &&& new.frames().len() == old.frames().len()
        &&& forall|j: int|
            #![trigger new.frames()[j]]
            0 <= j < old.frames().len() ==> new.frames()[j] == (old.frames()[j] || exists|i: int|
                0 <= i < pages.len() && covers(#[trigger] pages[i], old.base(), j))
    }

    /// An allocator that manages no memory.
    pub fn empty() -> (r: Self)
        ensures
            r.wf(),
            r.frames().len() == 0,
    {
        PageAllocator { base_address: 0, free: Vec::new() }
    }

    /// Sets up the allocator in `slot`, which must still be empty, over the confidential memory
    /// `[memory_start, memory_end)`, all of it free.
    pub fn initialize(
        slot: &mut Option<PageAllocator>,
        layout: &MemoryLayout,
        memory_start: ConfidentialMemoryAddress,
        memory_end: usize,
    ) -> (r: Result<(), Error>)
        requires
            memory_start.address % 4096 == 0,
            memory_end % 4096 == 0,
            memory_start.address < memory_end,
        ensures
            *old(slot) is Some ==> r == Err::<(), Error>(Error::Reinitialization()),
            *old(slot) is None && !(layout.confidential_memory_start <= memory_start.address
                && memory_end <= layout.confidential_memory_end) ==> r == Err::<(), Error>(
                Error::AddressNotInConfidentialMemory(),
            ),
            r is Err ==> *final(slot) == *old(slot),
            r is Ok <==> (*old(slot) is None && layout.confidential_memory_start
                <= memory_start.address && memory_end <= layout.confidential_memory_end),
            r is Ok ==> *final(slot) is Some,
            r is Ok ==> {
                let a = final(slot).unwrap();
                &&& a.wf()
                &&& a.base() == memory_start.address
                &&& a.limit() == memory_end
                &&& forall|j: int| 0 <= j < a.frames().len() ==> #[trigger] a.frames()[j]
            },
    {
        if slot.is_some() {
            return Err(Error::Reinitialization());
        }
        if !(layout.confidential_memory_start <= memory_start.address && memory_end
            <= layout.confidential_memory_end) {
            return Err(Error::AddressNotInConfidentialMemory());
        }
        let number_of_frames = (memory_end - memory_start.address) / 4096;
        let mut free: Vec<bool> = Vec::new();
        let mut i: usize = 0;
        while i < number_of_frames
            invariant
                i <= number_of_frames,
                free@.len() == i,
                forall|j: int| 0 <= j < i ==> #[trigger] free@[j],
            decreases number_of_frames - i,
        {
            free.push(true);
            i = i + 1;
        }
        *slot = Some(PageAllocator { base_address: memory_start.address, free });
        Ok(())
    }

    /// Hands out the first `size`-aligned block of free frames that is `size` bytes long, and
    /// marks its frames as handed out. Fails with `OutOfPages` when there is no such block.
    pub fn acquire_page_token(&mut self, size: PageSize) -> (r: Result<Page, Error>)
        requires
            old(self).wf(),
        ensures
            final(self).wf(),
            final(self).base() == old(self).base(),
            final(self).frames().len() == old(self).frames().len(),
            r is Ok <==> old(self).can_acquire(size),
            r is Err ==> r->Err_0 == Error::OutOfPages() && *final(self) == *old(self),
            r matches Ok(p) ==> {
                &&& p.page_size() == size
                &&& p.start() % (size.bytes() as int) == 0
                &&& old(self).base() <= p.start() && p.end() <= old(self).limit()
                &&& forall|j: int|
                    #![trigger old(self).frames()[j]]
                    0 <= j < old(self).frames().len() && covers(p, old(self).base(), j)
                        ==> old(self).frames()[j]
                &&& forall|j: int|
                    #![trigger final(self).frames()[j]]
                    0 <= j < old(self).frames().len() ==> final(self).frames()[j] == (old(
                        self,
                    ).frames()[j] && !covers(p, old(self).base(), j))
                &&& final(self).is_live(p)
                &&& old(self).is_free_page(p)
                &&& forall|k: int|
                    #![trigger block_free(old(self).frames(), k, size.frames() as int)]
                    0 <= k && old(self).base() + k * 4096 < p.start() && old(self).aligned_frame(
                        k,
                        size,
                    ) ==> !block_free(old(self).frames(), k, size.frames() as int)
            },
    {
        let n = size.in_frames();
        match self.find_free_block(size) {
            None => Err(Error::OutOfPages()),
            Some(k) => {
                let ghost before = self.free@;
                assert(block_free(before, k as int, n as int));
                let address = self.base_address + k * 4096;
                let end: usize = k + n;
                let mut m: usize = k;
                while m < end
                    invariant
                        end == k + n,
                        k <= m <= k + n,
                        k + n <= before.len(),
                        n == size.frames(),
                        self.free@.len() == before.len(),
                        self.base_address == old(self).base_address,
                        forall|i: int|
                            0 <= i < before.len() ==> #[trigger] self.free@[i] == if k <= i < m {
                                false
                            } else {
                                before[i]
                            },
                    decreases end - m,
                {
                    self.free.set(m, false);
                    m = m + 1;
                }
                let page = Page { start_address: address, size };
                assert forall|i: int| 0 <= i < before.len() implies covers(
                    page,
                    self.base(),
                    i,
                ) == (k <= i < k + n) by {}
                Ok(page)
            },
        }
    }

    /// The first frame index at which a `size`-aligned block of free frames of `size` bytes
    /// starts, if any.
    fn find_free_block(&self, size: PageSize) -> (r: Option<usize>)
        requires
            self.wf(),
        ensures
            r is None <==> !self.can_acquire(size),
            r matches Some(k) ==> {
                &&& self.aligned_frame(k as int, size)
                &&& block_free(self.frames(), k as int, size.frames() as int)
                &&& forall|k2: int|
                    #![trigger block_free(self.frames(), k2, size.frames() as int)]
                    0 <= k2 < k && self.aligned_frame(k2, size) ==> !block_free(
                        self.frames(),
                        k2,
                        size.frames() as int,
                    )
            },
    {
        let n = size.in_frames();
        let bytes = size.in_bytes();
        let len = self.free.len();
        let mut k: usize = 0;
        while k < len && n <= len - k
            invariant
                self.wf(),
                len == self.frames().len(),
                n == size.frames(),
                bytes == size.bytes(),
                k <= len,
                forall|k2: int|
                    #![trigger block_free(self.frames(), k2, n as int)]
                    0 <= k2 < k && self.aligned_frame(k2, size) ==> !block_free(
                        self.frames(),
                        k2,
                        n as int,
                    ),
            decreases len - k,
        {
            let address = self.base_address + k * 4096;
            if address % bytes == 0 {
                let mut j: usize = k;
                while j < k + n && self.free[j]
                    invariant
                        k <= j <= k + n,
                        k + n <= len,
                        len == self.frames().len(),
                        forall|i: int| k <= i < j ==> #[trigger] self.frames()[i],
                    decreases k + n - j,
                {
                    j = j + 1;
                }
                if j == k + n {
                    assert(block_free(self.frames(), k as int, n as int));
                    return Some(k);
                }
                assert(!self.frames()[j as int]);
                assert(!block_free(self.frames(), k as int, n as int));
            }
            k = k + 1;
        }
        assert forall|k2: int|
            #![trigger block_free(self.frames(), k2, n as int)]
            self.aligned_frame(k2, size) implies !block_free(self.frames(), k2, n as int) by {}
        None
    }

    /// Returns a page token of the requested size; see `acquire_page_token`.
    pub fn acquire_page(&mut self, page_size_to_allocate: PageSize) -> (r: Result<Page, Error>)
        requires
            old(self).wf(),
        ensures
            final(self).wf(),
            final(self).base() == old(self).base(),
            final(self).frames().len() == old(self).frames().len(),
            r is Ok <==> old(self).can_acquire(page_size_to_allocate),
            r is Err ==> r->Err_0 == Error::OutOfPages() && *final(self) == *old(self),
            r matches Ok(p) ==> {
                &&& p.page_size() == page_size_to_allocate
                &&& p.start() % (page_size_to_allocate.bytes() as int) == 0
                &&& old(self).base() <= p.start() && p.end() <= old(self).limit()
                &&& forall|j: int|
                    #![trigger old(self).frames()[j]]
                    0 <= j < old(self).frames().len() && covers(p, old(self).base(), j)
                        ==> old(self).frames()[j]
                &&& forall|j: int|
                    #![trigger final(self).frames()[j]]
                    0 <= j < old(self).frames().len() ==> final(self).frames()[j] == (old(
                        self,
                    ).frames()[j] && !covers(p, old(self).base(), j))
                &&& final(self).is_live(p)
                &&& old(self).is_free_page(p)
                &&& forall|k: int|
                    #![trigger block_free(old(self).frames(), k, page_size_to_allocate.frames() as int)]
                    0 <= k && old(self).base() + k * 4096 < p.start() && old(self).aligned_frame(
                        k,
                        page_size_to_allocate,
                    ) ==> !block_free(old(self).frames(), k, page_size_to_allocate.frames() as int)
            },
    {
        self.acquire_page_token(page_size_to_allocate)
    }
    /// Gives the frames of `page_token` back to the allocator.
    pub fn store_page_token(&mut self, page_token: Page)
        requires
            old(self).wf(),
            old(self).is_live(page_token),
        ensures
            final(self).wf(),
            final(self).base() == old(self).base(),
            final(self).frames().len() == old(self).frames().len(),
            forall|j: int|
                #![trigger final(self).frames()[j]]
                0 <= j < old(self).frames().len() ==> final(self).frames()[j] == (old(
                    self,
                ).frames()[j] || covers(page_token, old(self).base(), j)),
    {
        let ghost before = self.free@;
        proof {
            lemma_page_start_frame_aligned(page_token.start_address, page_token.size);
            lemma_frame_offset(page_token.start_address, self.base_address);
        }
        let k = (page_token.start_address - self.base_address) / 4096;
        let n = page_token.size.in_frames();
        let end: usize = k + n;
        let mut m: usize = k;
        while m < end
            invariant
                end == k + n,
                k <= m <= end,
                end <= before.len(),
                self.free@.len() == before.len(),
                self.base_address == old(self).base_address,
                forall|i: int|
                    0 <= i < before.len() ==> #[trigger] self.free@[i] == if k <= i < m {
                        true
                    } else {
                        before[i]
                    },
            decreases end - m,
        {
            self.free.set(m, true);
            m = m + 1;
        }
        assert forall|i: int| 0 <= i < before.len() implies covers(
            page_token,
            self.base(),
            i,
        ) == (k <= i < end) by {}
    }

    /// Gives back every page token of `released_pages`, which are pairwise disjoint pages
    /// handed out by this allocator.
    pub fn release_pages(&mut self, released_pages: Vec<Page>)
        requires
            old(self).wf(),
            forall|i: int| 0 <= i < released_pages@.len() ==> old(self).is_live(#[trigger] released_pages@[i]),
            forall|i: int, j: int|
                0 <= i < released_pages@.len() && 0 <= j < released_pages@.len() && i != j
                    ==> disjoint(#[trigger] released_pages@[i], #[trigger] released_pages@[j]),
        ensures
            PageAllocator::released(*old(self), *final(self), released_pages@),
    {
        let ghost all = released_pages@;
        let ghost before = *self;
        let mut pages = released_pages;
        while pages.len() > 0
            invariant
                before == *old(self),
                before.wf(),
                self.wf(),
                self.base() == before.base(),
                self.frames().len() == before.frames().len(),
                pages@.len() <= all.len(),
                pages@ == all.subrange(0, pages@.len() as int),
                forall|i: int| 0 <= i < all.len() ==> before.is_live(#[trigger] all[i]),
                forall|i: int, j: int|
                    0 <= i < all.len() && 0 <= j < all.len() && i != j ==> disjoint(
                        #[trigger] all[i],
                        #[trigger] all[j],
                    ),
                forall|j: int|
                    #![trigger self.frames()[j]]
                    0 <= j < before.frames().len() ==> self.frames()[j] == (before.frames()[j]
                        || exists|i: int|
                        pages@.len() <= i < all.len() && covers(#[trigger] all[i], before.base(), j)),
            decreases pages@.len(),
        {
            let ghost cnt = pages@.len() - 1;
            let page = pages.pop().unwrap();
            assert(page == all[cnt]);
            assert forall|j: int|
                0 <= j < self.frames().len() && covers(page, self.base(), j) implies !(
                #[trigger] self.frames()[j]) by {
                if exists|i: int| cnt < i < all.len() && covers(#[trigger] all[i], before.base(), j) {
                    let i = choose|i: int| cnt < i < all.len() && covers(#[trigger] all[i], before.base(), j);
                    assert(disjoint(all[i], all[cnt]));
                }
                assert(!before.frames()[j]);
            }
            self.store_page_token(page);
            assert forall|j: int|
                #![trigger self.frames()[j]]
                0 <= j < before.frames().len() implies self.frames()[j] == (before.frames()[j]
                    || exists|i: int|
                    cnt <= i < all.len() && covers(#[trigger] all[i], before.base(), j)) by {
                if covers(all[cnt], before.base(), j) {
                    assert(cnt <= cnt < all.len() && covers(all[cnt], before.base(), j));
                }
            }
        }
    }
}

/// A page is aligned to its own size, hence to 4 KiB.
proof fn lemma_page_start_frame_aligned(a: usize, size: PageSize)
    requires
        (a as int) % (size.bytes() as int) == 0,
    ensures
        a % 4096 == 0,
{
    match size {
        PageSize::Size4KiB => {},
        PageSize::Size2MiB => {
            assert(a % 0x20_0000 == 0 ==> a % 4096 == 0) by (bit_vector);
        },
        PageSize::Size1GiB => {
            assert(a % 0x4000_0000 == 0 ==> a % 4096 == 0) by (bit_vector);
        },
    }
}

/// The distance between two 4 KiB-aligned addresses is a whole number of frames.
proof fn lemma_frame_offset(a: usize, b: usize)
    requires
        a % 4096 == 0,
        b % 4096 == 0,
        b <= a,
    ensures
        (a - b) % 4096 == 0,
        ((a - b) / 4096) * 4096 == a - b,
{
    assert((a % 4096 == 0 && b % 4096 == 0 && b <= a) ==> (a - b) % 4096 == 0) by (bit_vector);
    lemma_fundamental_div_mod((a - b) as int, 4096);
}

/// Conservation: a page whose frames are all free shares no byte with any page that is handed
/// out, so a token returned by `acquire_page` never overlaps a live token, and it lies inside
/// the managed confidential memory.
pub proof fn lemma_free_page_disjoint_from_live(a: PageAllocator, p: Page, q: Page)
    requires
        a.wf(),
        a.is_free_page(p),
        a.is_live(q),
    ensures
        disjoint(p, q),
        a.base() <= p.start() && p.end() <= a.limit(),
{
    if !disjoint(p, q) {
        lemma_page_start_frame_aligned(p.start_address, p.size);
        lemma_page_start_frame_aligned(q.start_address, q.size);
        let x: usize = if p.start_address <= q.start_address {
            q.start_address
        } else {
            p.start_address
        };
        lemma_frame_offset(x, a.base_address);
        let j = (x - a.base_address) / 4096;
        assert(covers(p, a.base(), j));
        assert(covers(q, a.base(), j));
        assert(a.frames()[j]);
    }
}

/// Page `c` of size `child` inside the page of size `parent` that starts at `parent_start`
/// is among `pages`.
pub open spec fn has_child(pages: Seq<Page>, parent_start: int, child: PageSize, c: int) -> bool {
    exists|i: int|
        0 <= i < pages.len() && (#[trigger] pages[i]).start() == parent_start + c * child.bytes()
            && pages[i].page_size() == child
}

/// Buddy merge: once every page of size `child` that makes up one aligned page of size
/// `parent` has been released, a page of size `parent` can be acquired at once.
pub proof fn lemma_released_siblings_merge(
    old: PageAllocator,
    new: PageAllocator,
    pages: Seq<Page>,
    parent_start: int,
    parent: PageSize,
    child: PageSize,
)
    requires
        old.wf(),
        PageAllocator::released(old, new, pages),
        child.bytes() < parent.bytes(),
        parent_start % (parent.bytes() as int) == 0,
        old.base() <= parent_start,
        parent_start + parent.bytes() <= old.limit(),
        forall|c: int|
            0 <= c < parent.bytes() / child.bytes() ==> #[trigger] has_child(
                pages,
                parent_start,
                child,
                c,
            ),
    ensures
        new.can_acquire(parent),
{
    let cb = child.bytes() as int;
    let pb = parent.bytes() as int;
    let count = pb / cb;
    assert(count * cb == pb) by {
        match parent {
            PageSize::Size4KiB => {},
            PageSize::Size2MiB => {},
            PageSize::Size1GiB => {
                match child {
                    PageSize::Size4KiB => {},
                    PageSize::Size2MiB => {},
                    PageSize::Size1GiB => {},
                }
            },
        }
    }
    lemma_page_start_frame_aligned(parent_start as usize, parent);
    lemma_frame_offset(parent_start as usize, old.base_address);
    let k = (parent_start - old.base()) / 4096;
    assert(parent.bytes() == parent.frames() * 4096);
    assert forall|j: int| k <= j < k + parent.frames() implies #[trigger] new.frames()[j] by {
        let d = j * 4096 - k * 4096;
        lemma_fundamental_div_mod(d, cb);
        let c = d / cb;
        assert(0 <= d % cb < cb);
        assert(c * cb <= d) by (nonlinear_arith)
            requires
                d == cb * (d / cb) + d % cb,
                c == d / cb,
                0 <= d % cb,
        ;
        assert(d < c * cb + cb) by (nonlinear_arith)
            requires
                d == cb * (d / cb) + d % cb,
                c == d / cb,
                d % cb < cb,
        ;
        assert(0 <= c < count) by (nonlinear_arith)
            requires
                c * cb <= d,
                d < c * cb + cb,
                0 <= d < pb,
                count * cb == pb,
                cb > 0,
        ;
        assert(has_child(pages, parent_start, child, c));
        let i = choose|i: int|
            0 <= i < pages.len() && (#[trigger] pages[i]).start() == parent_start + c * child.bytes()
                && pages[i].page_size() == child;
        assert(covers(pages[i], old.base(), j));
    }
    assert(block_free(new.frames(), k, parent.frames() as int));
}

} // verus!

use vstd::prelude::*;

verus! {

/// The page sizes supported by the monitor.
#[derive(Clone, Copy, Debug, PartialEq, Eq, Structural)]
pub enum PageSize {
    Size4KiB,
    Size2MiB,
    Size1GiB,
}

/// Number of bytes of the smallest page.
pub const SMALLEST_PAGE_BYTES: usize = 4096;

impl PageSize {
    /// Number of bytes covered by a page of this size.
    pub open spec fn bytes(self) -> nat {
        match self {
            PageSize::Size4KiB => 4096,
            PageSize::Size2MiB => 0x20_0000,
            PageSize::Size1GiB => 0x4000_0000,
        }
    }

    /// Number of smallest pages (frames) covered by a page of this size.
    pub open spec fn frames(self) -> nat {
        match self {
            PageSize::Size4KiB => 1,
            PageSize::Size2MiB => 512,
            PageSize::Size1GiB => 0x4_0000,
        }
    }

    /// The next smaller size, if any.
    pub open spec fn smaller_spec(self) -> Option<PageSize> {
        match self {
            PageSize::Size4KiB => None,
            PageSize::Size2MiB => Some(PageSize::Size4KiB),
            PageSize::Size1GiB => Some(PageSize::Size2MiB),
        }
    }

    /// The next larger size, if any.
    pub open spec fn larger_spec(self) -> Option<PageSize> {
        match self {
            PageSize::Size4KiB => Some(PageSize::Size2MiB),
            PageSize::Size2MiB => Some(PageSize::Size1GiB),
            PageSize::Size1GiB => None,
        }
    }

    pub fn in_bytes(&self) -> (r: usize)
        ensures
            r == self.bytes(),
            r == self.frames() * 4096,
    {
        match self {
            PageSize::Size4KiB => 4096,
            PageSize::Size2MiB => 0x20_0000,
            PageSize::Size1GiB => 0x4000_0000,
        }
    }

    /// Number of 4 KiB frames in a page of this size.
    pub fn in_frames(&self) -> (r: usize)
        ensures
            r == self.frames(),
            r >= 1,
    {
        match self {
            PageSize::Size4KiB => 1,
            PageSize::Size2MiB => 512,
            PageSize::Size1GiB => 0x4_0000,
        }
    }

    pub fn smaller(&self) -> (r: Option<PageSize>)
        ensures
            r == self.smaller_spec(),
    {
        match self {
            PageSize::Size4KiB => None,
            PageSize::Size2MiB => Some(PageSize::Size4KiB),
            PageSize::Size1GiB => Some(PageSize::Size2MiB),
        }
    }

    pub fn larger(&self) -> (r: Option<PageSize>)
        ensures
            r == self.larger_spec(),
    {
        match self {
            PageSize::Size4KiB => Some(PageSize::Size2MiB),
            PageSize::Size2MiB => Some(PageSize::Size1GiB),
            PageSize::Size1GiB => None,
        }
    }

    /// How many pages of the next smaller size make up one page of this size (0 for the smallest).
    pub fn number_of_smaller_pages(&self) -> (r: usize)
        ensures
            match self.smaller_spec() {
                Some(s) => r * s.bytes() == self.bytes(),
                None => r == 0,
            },
    {
        match self {
            PageSize::Size4KiB => 0,
            PageSize::Size2MiB => 512,
            PageSize::Size1GiB => 512,
        }
    }

    pub fn smallest() -> (r: PageSize)
        ensures
            r == PageSize::Size4KiB,
    {
        PageSize::Size4KiB
    }

    pub fn largest() -> (r: PageSize)
        ensures
            r == PageSize::Size1GiB,
    {
        PageSize::Size1GiB
    }
}

} // verus!

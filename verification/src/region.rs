//! The isolated region: the span of memory that sandboxed code owns.

use vstd::prelude::*;
use vstd::layout::size_of;

verus! {

/// Granularity at which memory can be given to a protection domain.
pub const PAGE_SIZE: usize = 4096;

/// The span `[start, end)` that holds the static data of the sandboxed code.
///
/// A region is never empty and both of its bounds lie on a page boundary.
#[derive(Clone, Copy, Debug, PartialEq, Eq)]
pub struct Region {
    start: usize,
    end: usize,
}

/// Whether `start` and `end` bound a region: a non-empty span between two page boundaries.
pub open spec fn region_bounds_ok(start: usize, end: usize) -> bool {
    &&& start < end
    &&& start as int % PAGE_SIZE as int == 0
    &&& end as int % PAGE_SIZE as int == 0
}

/// Whether `len` values of type `T` laid out from `addr` stay inside `[start, end)`.
/// An empty slice fits wherever it starts.
pub open spec fn slice_in_bounds<T>(start: usize, end: usize, addr: usize, len: usize) -> bool {
    len == 0 || (start <= addr && addr + len * size_of::<T>() <= end)
}

impl Region {
    /// First address of the region.
    pub closed spec fn spec_start(&self) -> usize {
        self.start
    }

    /// First address past the region.
    pub closed spec fn spec_end(&self) -> usize {
        self.end
    }

    /// The invariant of every region.
    #[verifier::type_invariant]
    pub open spec fn wf(&self) -> bool {
        region_bounds_ok(self.spec_start(), self.spec_end())
    }

    /// Whether a slice of `len` values of `T` at `addr` lies inside this region.
    pub open spec fn holds_slice<T>(&self, addr: usize, len: usize) -> bool {
        slice_in_bounds::<T>(self.spec_start(), self.spec_end(), addr, len)
    }

    /// The region between `start` and `end`, if the two bound one.
    pub fn new(start: usize, end: usize) -> (r: Option<Region>)
        ensures
            r is Some <==> region_bounds_ok(start, end),
            r matches Some(region) ==> region.wf() && region.spec_start() == start
                && region.spec_end() == end,
    {
        if start < end && start % PAGE_SIZE == 0 && end % PAGE_SIZE == 0 {
            Some(Region { start, end })
        } else {
            None
        }
    }

    /// First address of the region.
    #[verifier::when_used_as_spec(spec_start)]
    pub fn start(&self) -> (r: usize)
        ensures
            r == self.spec_start(),
    {
        self.start
    }

    /// First address past the region.
    #[verifier::when_used_as_spec(spec_end)]
    pub fn end(&self) -> (r: usize)
        ensures
            r == self.spec_end(),
    {
        self.end
    }

    /// Number of bytes in the region.
    pub fn len(&self) -> (r: usize)
        ensures
            r == self.end() - self.start(),
            r > 0,
    {
        proof {
            use_type_invariant(self);
        }
        self.end - self.start
    }

    /// Decides whether a slice of `len` values of `T` at `addr` lies inside this region.
    pub fn contains_slice<T>(&self, addr: usize, len: usize) -> (ok: bool)
        ensures
            ok == self.holds_slice::<T>(addr, len),
    {
        if len == 0 {
            return true;
        }
        if addr < self.start || addr > self.end {
            return false;
        }
        let room: usize = self.end - addr;
        let size: usize = core::mem::size_of::<T>();
        match len.checked_mul(size) {
            Some(bytes) => bytes <= room,
            None => false,
        }
    }
}

/// A slice of no elements fits at every address, inside the region or not.
pub proof fn lemma_empty_slice_fits<T>(region: Region, addr: usize)
    ensures
        region.holds_slice::<T>(addr, 0),
{
}

/// A non-empty slice that starts before the region or runs past its end does not fit.
pub proof fn lemma_overrunning_slice_rejected<T>(region: Region, addr: usize, len: usize)
    requires
        len > 0,
        addr < region.start() || addr + len * size_of::<T>() > region.end(),
    ensures
        !region.holds_slice::<T>(addr, len),
{
}

} // verus!

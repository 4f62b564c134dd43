//! The heap arena: the one region of memory that is handed to the allocator
//! before anything allocates.

use vstd::prelude::*;

verus! {

/// Size of the heap in bytes.
pub const SBI_HEAP_SIZE: usize = 8192;

/// Number of size classes of the allocator.
pub const HEAP_ORDER: usize = 32;

#[derive(Clone, Copy, Debug, PartialEq, Eq, Structural)]
pub enum HeapError {
    /// The region has no bytes.
    Empty,
    /// The region runs past the end of the address space.
    OutOfRange,
}

/// A region of `size` bytes at `base`, checked once and then fixed.
#[derive(Clone, Copy, Debug, PartialEq, Eq, Structural)]
pub struct HeapArena {
    base: usize,
    size: usize,
}

impl HeapArena {
    pub closed spec fn view(&self) -> (usize, usize) {
        (self.base, self.size)
    }

    /// The region is not empty and ends inside the address space.
    pub open spec fn wf(&self) -> bool {
        self@.1 > 0 && self@.0 + self@.1 <= usize::MAX
    }

    pub fn base(&self) -> (base: usize)
        ensures
            base == self@.0,
    {
        self.base
    }

    pub fn size(&self) -> (size: usize)
        ensures
            size == self@.1,
    {
        self.size
    }

    /// The first address after the region.
    pub fn end(&self) -> (end: usize)
        requires
            self.wf(),
        ensures
            end == self@.0 + self@.1,
    {
        self.base + self.size
    }
}

/// Validates the region that is to become the heap and describes it for
/// the one registration with the allocator.
pub fn heap_init(base: usize, size: usize) -> (arena: Result<HeapArena, HeapError>)
    ensures
        match arena {
            Ok(a) => a.wf() && a@ == (base, size),
            Err(HeapError::Empty) => size == 0,
            Err(HeapError::OutOfRange) => size > 0 && base + size > usize::MAX,
        },
{
    if size == 0 {
        Err(HeapError::Empty)
    } else if base > usize::MAX - size {
        Err(HeapError::OutOfRange)
    } else {
        Ok(HeapArena { base, size })
    }
}

} // verus!

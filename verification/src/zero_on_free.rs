//! The allocator wrapper that zeroes on free.

use vstd::prelude::*;

use crate::allocator::Allocator;
use crate::layout::Layout;
use crate::memory::zero_fill;

verus! {

/// A wrapper around an allocator that overwrites every block with zero bytes
/// before the allocator beneath takes it back. It holds nothing but that
/// allocator, and an allocation goes straight through to it.
pub struct ZeroOnFreeAllocator<A: Allocator> {
    pub inner: A,
}

impl<A: Allocator> ZeroOnFreeAllocator<A> {
    /// A zero-on-free wrapper around `inner`.
    pub fn new(inner: A) -> (wrapper: Self)
        ensures
            wrapper.inner == inner,
    {
        ZeroOnFreeAllocator { inner }
    }

    /// The allocator beneath, back out of the wrapper.
    pub fn into_inner(self) -> (inner: A)
        ensures
            inner == self.inner,
    {
        self.inner
    }
}

impl<A: Allocator> Allocator for ZeroOnFreeAllocator<A> {
    /// The wrapper is valid where the allocator beneath is.
    open spec fn wf(&self) -> bool {
        self.inner.wf()
    }

    /// The allocator beneath is handed the zeroed block, so that is the one
    /// that it has to accept.
    open spec fn accepts(&self, block: Seq<u8>, layout: Layout) -> bool {
        self.inner.accepts(crate::memory::zeros(block.len()), layout)
    }

    /// An allocation is the allocation of the allocator beneath.
    open spec fn allocated(&self, layout: Layout, block: Option<Seq<u8>>, after: Self) -> bool {
        self.inner.allocated(layout, block, after.inner)
    }

    /// A zeroed allocation is the zeroed allocation of the allocator beneath.
    open spec fn allocated_zeroed(&self, layout: Layout, block: Option<Seq<u8>>, after: Self) -> bool {
        self.inner.allocated_zeroed(layout, block, after.inner)
    }

    /// A deallocation is the deallocation, by the allocator beneath, of as
    /// many zero bytes as the block has, whatever the block held.
    open spec fn deallocated(&self, block: Seq<u8>, layout: Layout, after: Self) -> bool {
        self.inner.deallocated(crate::memory::zeros(block.len()), layout, after.inner)
    }

    /// Asks the allocator beneath for a block and returns what it gives:
    /// the block is not touched, and a failure is passed on as it is.
    fn allocate(&mut self, layout: Layout) -> (block: Option<Vec<u8>>) {
        self.inner.allocate(layout)
    }

    /// Asks the allocator beneath for a zeroed block and returns what it
    /// gives. Nothing is written here: the block is fresh.
    fn allocate_zeroed(&mut self, layout: Layout) -> (block: Option<Vec<u8>>) {
        self.inner.allocate_zeroed(layout)
    }

    /// Overwrites the whole block with zero bytes, and only then hands it to
    /// the allocator beneath.
    fn deallocate(&mut self, block: Vec<u8>, layout: Layout) {
        let mut block = block;
        zero_fill(block.as_mut_slice());
        self.inner.deallocate(block, layout);
    }
}

} // verus!

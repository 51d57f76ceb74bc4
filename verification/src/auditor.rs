//! The auditor: an allocator wrapper that looks at every block on its way
//! back to the allocator beneath, and records whether it was all zero.

use vstd::prelude::*;

use crate::allocator::Allocator;
use crate::audit::AllocInfo;
use crate::layout::Layout;

verus! {

/// A wrapper around an allocator that changes nothing of what the allocator
/// does, and keeps a record of the frees that pass through it: for each of
/// the most recent `CAPACITY`, whether the freed block was all zero.
pub struct Auditor<A: Allocator, const CAPACITY: usize> {
    pub inner: A,
    pub info: AllocInfo<CAPACITY>,
}

impl<A: Allocator, const CAPACITY: usize> Auditor<A, CAPACITY> {
    /// An auditor around `inner` that has seen no free.
    pub fn new(inner: A) -> (auditor: Self)
        requires
            CAPACITY > 0,
        ensures
            auditor.inner == inner,
            auditor.info.wf(),
            auditor.info.free_count_spec() == 0,
            auditor.info.history() == Seq::<bool>::empty(),
    {
        Auditor { inner, info: AllocInfo::new() }
    }

    /// Looks at the block, records whether all of it is zero, and then hands
    /// it to the allocator beneath, as it is.
    pub fn on_deallocate(&mut self, block: Vec<u8>, layout: Layout)
        requires
            old(self).wf(),
            block@.len() == layout.size_spec(),
            old(self).accepts(block@, layout),
        ensures
            final(self).wf(),
            old(self).deallocated(block@, layout, *final(self)),
    {
        self.info.inspect(block.as_slice());
        self.inner.deallocate(block, layout);
    }

    /// Whether every free in the record was of a block that was all zero:
    /// the most recent `CAPACITY` frees since the last `clear`, or all of
    /// them where there were fewer. True where there was none.
    pub fn verify_all_zeroed(&self) -> (ok: bool)
        requires
            self.info.wf(),
        ensures
            ok == crate::audit::all_true(
                crate::audit::recent(self.info.history(), CAPACITY as nat),
            ),
            ok == (forall|i: int|
                0 <= i < crate::audit::min(CAPACITY as nat, self.info.free_count_spec())
                    ==> self.info.zeroed_spec()[i]),
    {
        self.info.verify_all_zeroed()
    }

    /// Forgets the frees seen so far: the counter goes back to zero, and
    /// `verify_all_zeroed` speaks only of the frees that come after.
    pub fn clear(&mut self)
        requires
            old(self).info.wf(),
        ensures
            final(self).info.wf(),
            final(self).info.free_count_spec() == 0,
            final(self).info.history() == Seq::<bool>::empty(),
            final(self).info.zeroed_spec() == old(self).info.zeroed_spec(),
            final(self).inner == old(self).inner,
    {
        self.info.clear();
    }
}

impl<A: Allocator, const CAPACITY: usize> Allocator for Auditor<A, CAPACITY> {
    /// The auditor is valid where the allocator beneath and the record are.
    open spec fn wf(&self) -> bool {
        self.inner.wf() && self.info.wf()
    }

    /// The counter of frees has to have room for one more; the rest is for
    /// the allocator beneath to say.
    open spec fn accepts(&self, block: Seq<u8>, layout: Layout) -> bool {
        self.info.free_count_spec() < usize::MAX && self.inner.accepts(block, layout)
    }

    /// An allocation is the allocation of the allocator beneath, and leaves
    /// the record as it is.
    open spec fn allocated(&self, layout: Layout, block: Option<Seq<u8>>, after: Self) -> bool {
        after.info == self.info && self.inner.allocated(layout, block, after.inner)
    }

    /// A zeroed allocation is the zeroed allocation of the allocator
    /// beneath, and leaves the record as it is.
    open spec fn allocated_zeroed(&self, layout: Layout, block: Option<Seq<u8>>, after: Self) -> bool {
        after.info == self.info && self.inner.allocated_zeroed(layout, block, after.inner)
    }

    /// A deallocation records whether the block was all zero, and is the
    /// deallocation of the same block by the allocator beneath.
    open spec fn deallocated(&self, block: Seq<u8>, layout: Layout, after: Self) -> bool {
        self.info.recorded(crate::memory::all_zero(block), after.info) && self.inner.deallocated(
            block,
            layout,
            after.inner,
        )
    }

    /// Hands the request on to the allocator beneath.
    fn allocate(&mut self, layout: Layout) -> (block: Option<Vec<u8>>) {
        self.inner.allocate(layout)
    }

    /// Hands the request on to the allocator beneath.
    fn allocate_zeroed(&mut self, layout: Layout) -> (block: Option<Vec<u8>>) {
        self.inner.allocate_zeroed(layout)
    }

    /// Records the block and hands it on: what `on_deallocate` does.
    fn deallocate(&mut self, block: Vec<u8>, layout: Layout) {
        self.on_deallocate(block, layout)
    }
}

} // verus!

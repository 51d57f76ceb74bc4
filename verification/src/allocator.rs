//! What an allocator is to this library, and a plain one to put at the
//! bottom of a stack of wrappers.
//!
//! A block of memory is a `Vec<u8>`: whoever holds the value owns the block,
//! and gives it up by handing the value to `deallocate`.

use vstd::prelude::*;

use crate::layout::Layout;

verus! {

/// The bytes of the block that an allocation gave, if it gave one.
pub open spec fn block_view(block: Option<Vec<u8>>) -> Option<Seq<u8>> {
    match block {
        Some(bytes) => Some(bytes@),
        None => None,
    }
}

/// The block `fresh` with the start of `old` copied over it, as far as both
/// reach.
pub open spec fn carried_over(old: Seq<u8>, fresh: Seq<u8>) -> Seq<u8> {
    Seq::new(fresh.len(), |i: int| if i < old.len() { old[i] } else { fresh[i] })
}

/// An allocator: it gives out blocks of memory and takes them back.
///
/// What a call does to the allocator and what it returns is said by a
/// relation of the allocator's own: between the state before the call, the
/// arguments, the result, and the state after it. A wrapper's relations are
/// written over those of the allocator that it wraps.
pub trait Allocator: Sized {
    /// Whether the allocator's state is valid.
    spec fn wf(&self) -> bool;

    /// What the allocator asks of a block that is given back, beyond that the
    /// block has the size of its layout.
    spec fn accepts(&self, block: Seq<u8>, layout: Layout) -> bool;

    /// Whether `allocate(layout)`, called in this state, can return `block`
    /// and leave the allocator in the state `after`.
    spec fn allocated(&self, layout: Layout, block: Option<Seq<u8>>, after: Self) -> bool;

    /// Whether `allocate_zeroed(layout)`, called in this state, can return
    /// `block` and leave the allocator in the state `after`.
    spec fn allocated_zeroed(&self, layout: Layout, block: Option<Seq<u8>>, after: Self) -> bool;

    /// Whether `deallocate(block, layout)`, called in this state, can leave
    /// the allocator in the state `after`.
    spec fn deallocated(&self, block: Seq<u8>, layout: Layout, after: Self) -> bool;

    /// A block of `layout.size()` bytes, or `None` where the allocator cannot
    /// give one. What the block holds is the allocator's business. A block
    /// that the allocator would have taken back before the call, it takes
    /// back after it.
    fn allocate(&mut self, layout: Layout) -> (block: Option<Vec<u8>>)
        requires
            old(self).wf(),
        ensures
            final(self).wf(),
            old(self).allocated(layout, block_view(block), *final(self)),
            block matches Some(bytes) ==> bytes@.len() == layout.size_spec(),
            forall|other: Seq<u8>, its: Layout|
                old(self).accepts(other, its) ==> #[trigger] final(self).accepts(other, its),
    ;

    /// A block of `layout.size()` zero bytes, or `None` where the allocator
    /// cannot give one. A block that the allocator would have taken back
    /// before the call, it takes back after it.
    fn allocate_zeroed(&mut self, layout: Layout) -> (block: Option<Vec<u8>>)
        requires
            old(self).wf(),
        ensures
            final(self).wf(),
            old(self).allocated_zeroed(layout, block_view(block), *final(self)),
            block matches Some(bytes) ==> bytes@ == crate::memory::zeros(layout.size_spec()),
            forall|other: Seq<u8>, its: Layout|
                old(self).accepts(other, its) ==> #[trigger] final(self).accepts(other, its),
    ;

    /// Takes `block` back. The layout is the one that the block was
    /// allocated with, so the block has the size of the layout; and the
    /// allocator accepts the block.
    fn deallocate(&mut self, block: Vec<u8>, layout: Layout)
        requires
            old(self).wf(),
            block@.len() == layout.size_spec(),
            old(self).accepts(block@, layout),
        ensures
            final(self).wf(),
            old(self).deallocated(block@, layout, *final(self)),
    ;

    /// Resizes `block` to `new_size` bytes by moving it: allocates a fresh
    /// block of that size with the old alignment, copies the old bytes over
    /// as far as both blocks reach, and gives the old block back. Where no
    /// fresh block can be had, the old one is returned in `Err`, untouched
    /// and still the caller's. A block is never resized in place.
    fn reallocate(&mut self, block: Vec<u8>, layout: Layout, new_size: usize) -> (result: Result<
        Vec<u8>,
        Vec<u8>,
    >)
        requires
            old(self).wf(),
            block@.len() == layout.size_spec(),
            old(self).accepts(block@, layout),
        ensures
            final(self).wf(),
            result matches Ok(bytes) ==> exists|fresh: Seq<u8>, between: Self|
                (#[trigger] old(self).allocated(layout.resized(new_size), Some(fresh), between)
                    && fresh.len() == new_size && bytes@ == carried_over(block@, fresh)
                    && between.deallocated(block@, layout, *final(self))),
            result matches Err(bytes) ==> bytes@ == block@ && old(self).allocated(
                layout.resized(new_size),
                None,
                *final(self),
            ),
    {
        let new_layout = layout.with_size(new_size);
        let ghost before = *self;
        match self.allocate(new_layout) {
            None => Err(block),
            Some(mut fresh) => {
                let ghost between = *self;
                let ghost given = fresh@;
                let old_size = block.len();
                let mut i: usize = 0;
                while i < old_size && i < new_size
                    invariant
                        i <= old_size,
                        i <= new_size,
                        old_size == block@.len(),
                        fresh@.len() == new_size,
                        given.len() == new_size,
                        forall|j: int| 0 <= j < i ==> fresh@[j] == block@[j],
                        forall|j: int| i <= j < new_size ==> fresh@[j] == given[j],
                    decreases old_size - i,
                {
                    fresh[i] = block[i];
                    i += 1;
                }
                assert(fresh@ =~= carried_over(block@, given));
                self.deallocate(block, layout);
                assert(before.allocated(new_layout, Some(given), between));
                assert(between.deallocated(block@, layout, *self));
                Ok(fresh)
            },
        }
    }
}

/// A plain allocator with a budget: it takes its blocks from the program's
/// heap, and has no more than `capacity` bytes given out at any time. A
/// request that would go over that is refused. A fresh block is filled with
/// the byte `FRESH`; one asked for as zeroed with zero.
#[derive(Debug, PartialEq, Eq, Structural)]
pub struct Heap {
    capacity: usize,
    in_use: usize,
}

/// The byte that `Heap` fills a fresh block with.
pub const FRESH: u8 = 0xAA;

impl Heap {
    /// The number of bytes that the heap can have given out at one time.
    pub closed spec fn capacity_spec(&self) -> nat {
        self.capacity as nat
    }

    /// The number of bytes that are given out.
    pub closed spec fn in_use_spec(&self) -> nat {
        self.in_use as nat
    }

    /// A heap of `capacity` bytes, none of them given out.
    pub fn new(capacity: usize) -> (heap: Self)
        ensures
            heap.wf(),
            heap.capacity_spec() == capacity,
            heap.in_use_spec() == 0,
    {
        Heap { capacity, in_use: 0 }
    }

    /// The number of bytes that the heap can have given out at one time.
    pub fn capacity(&self) -> (capacity: usize)
        ensures
            capacity == self.capacity_spec(),
    {
        self.capacity
    }

    /// The number of bytes that are given out.
    pub fn in_use(&self) -> (in_use: usize)
        ensures
            in_use == self.in_use_spec(),
    {
        self.in_use
    }

    /// Whether `after` is this heap with `in_use` bytes given out.
    pub open spec fn with_in_use(&self, in_use: nat, after: Self) -> bool {
        after.capacity_spec() == self.capacity_spec() && after.in_use_spec() == in_use
    }

    /// What a request for `layout` does to a heap that fills with `fill`.
    /// Where the bytes asked for are still to be had, they are given out as
    /// a block filled with `fill`. Where they are not, nothing is given out
    /// and the heap stays as it is.
    pub open spec fn served(&self, layout: Layout, fill: u8, block: Option<Seq<u8>>, after: Self) -> bool {
        if self.in_use_spec() + layout.size_spec() <= self.capacity_spec() {
            &&& block == Some(Seq::new(layout.size_spec(), |i: int| fill))
            &&& self.with_in_use(self.in_use_spec() + layout.size_spec(), after)
        } else {
            &&& block is None
            &&& self.with_in_use(self.in_use_spec(), after)
        }
    }

    /// Gives out a block for `layout` with every byte `fill`, where the
    /// bytes asked for are still to be had.
    fn serve(&mut self, layout: Layout, fill: u8) -> (block: Option<Vec<u8>>)
        requires
            old(self).wf(),
        ensures
            final(self).wf(),
            old(self).served(layout, fill, block_view(block), *final(self)),
    {
        let size = layout.size();
        if size <= self.capacity - self.in_use {
            let bytes = vec![fill; size];
            assert(bytes@ =~= Seq::new(layout.size_spec(), |i: int| fill));
            self.in_use = self.in_use + size;
            Some(bytes)
        } else {
            None
        }
    }
}

impl Allocator for Heap {
    /// No more is given out than the heap has.
    open spec fn wf(&self) -> bool {
        self.in_use_spec() <= self.capacity_spec()
    }

    /// A block that is given back is no larger than what is given out.
    open spec fn accepts(&self, block: Seq<u8>, layout: Layout) -> bool {
        block.len() <= self.in_use_spec()
    }

    /// An allocation gives out a block filled with `FRESH`, where the bytes
    /// asked for are still to be had.
    open spec fn allocated(&self, layout: Layout, block: Option<Seq<u8>>, after: Self) -> bool {
        self.served(layout, FRESH, block, after)
    }

    /// A zeroed allocation gives out a block of zero bytes, where the bytes
    /// asked for are still to be had.
    open spec fn allocated_zeroed(&self, layout: Layout, block: Option<Seq<u8>>, after: Self) -> bool {
        self.served(layout, 0u8, block, after)
    }

    /// A deallocation takes the bytes of the block off what is given out.
    open spec fn deallocated(&self, block: Seq<u8>, layout: Layout, after: Self) -> bool {
        self.with_in_use((self.in_use_spec() - block.len()) as nat, after)
    }

    /// A block of `layout.size()` bytes, each of them `FRESH`, or `None`
    /// where the heap has not that many bytes left to give out.
    fn allocate(&mut self, layout: Layout) -> (block: Option<Vec<u8>>) {
        self.serve(layout, FRESH)
    }

    /// A block of `layout.size()` zero bytes, or `None` where the heap has
    /// not that many bytes left to give out.
    fn allocate_zeroed(&mut self, layout: Layout) -> (block: Option<Vec<u8>>) {
        let block = self.serve(layout, 0);
        proof {
            if block is Some {
                assert(block->0@ =~= crate::memory::zeros(layout.size_spec()));
            }
        }
        block
    }

    /// Takes the block back: it is dropped, and its bytes can be given out
    /// again.
    fn deallocate(&mut self, block: Vec<u8>, layout: Layout) {
        self.in_use = self.in_use - block.len();
    }
}

} // verus!

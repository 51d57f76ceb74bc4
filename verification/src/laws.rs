//! What holds of a zero-on-free allocator with an auditor beneath it, and of
//! an auditor alone. Stated over the relations of `Allocator` and over the
//! history of the auditor's record, which are what the contracts of the
//! allocators speak of.

use vstd::prelude::*;

use crate::allocator::Allocator;
use crate::auditor::Auditor;
use crate::layout::Layout;
use crate::zero_on_free::ZeroOnFreeAllocator;

verus! {

/// One call made on an allocator, with what it returned.
pub enum Call {
    Allocate { layout: Layout, given: Option<Seq<u8>> },
    AllocateZeroed { layout: Layout, given: Option<Seq<u8>> },
    Deallocate { block: Seq<u8>, layout: Layout },
}

/// Whether `call`, made in the state `before`, can leave the allocator in
/// the state `after`.
pub open spec fn step<A: Allocator>(before: A, call: Call, after: A) -> bool {
    match call {
        Call::Allocate { layout, given } => before.allocated(layout, given, after),
        Call::AllocateZeroed { layout, given } => before.allocated_zeroed(layout, given, after),
        Call::Deallocate { block, layout } => before.deallocated(block, layout, after),
    }
}

/// Whether `states` are states that an allocator can go through as `calls`
/// are made on it one after another: `states[i]` before call `i`, and
/// `states[i + 1]` after it.
pub open spec fn run<A: Allocator>(states: Seq<A>, calls: Seq<Call>) -> bool {
    &&& states.len() == calls.len() + 1
    &&& forall|i: int|
        #![trigger calls[i]]
        0 <= i < calls.len() ==> step(states[i], calls[i], states[i + 1])
}

/// How many of `calls` are deallocations.
pub open spec fn frees(calls: Seq<Call>) -> nat
    decreases calls.len(),
{
    if calls.len() == 0 {
        0
    } else {
        frees(calls.drop_last()) + if calls.last() is Deallocate {
            1nat
        } else {
            0nat
        }
    }
}

/// `count` entries, all of them true.
pub open spec fn all_zeroed(count: nat) -> Seq<bool> {
    Seq::new(count, |i: int| true)
}

/// A block that a zero-on-free allocator gives back reaches the auditor
/// beneath it as all zero, whatever it held: the auditor records `true`, and
/// the allocator beneath the auditor takes back zero bytes.
pub proof fn law_freed_block_is_seen_zeroed<A: Allocator, const CAPACITY: usize>(
    before: ZeroOnFreeAllocator<Auditor<A, CAPACITY>>,
    block: Seq<u8>,
    layout: Layout,
    after: ZeroOnFreeAllocator<Auditor<A, CAPACITY>>,
)
    requires
        before.deallocated(block, layout, after),
    ensures
        after.inner.info.history() == before.inner.info.history().push(true),
        after.inner.info.free_count_spec() == before.inner.info.free_count_spec() + 1,
        before.inner.inner.deallocated(crate::memory::zeros(block.len()), layout, after.inner.inner),
{
    assert(crate::memory::all_zero(crate::memory::zeros(block.len())));
}

/// An allocation through a zero-on-free allocator, zeroed or not, is the
/// allocation of the allocator beneath and nothing more: no block is
/// written, and an auditor beneath sees no free.
pub proof fn law_allocation_writes_nothing<A: Allocator, const CAPACITY: usize>(
    before: ZeroOnFreeAllocator<Auditor<A, CAPACITY>>,
    layout: Layout,
    block: Option<Seq<u8>>,
    after: ZeroOnFreeAllocator<Auditor<A, CAPACITY>>,
)
    ensures
        before.allocated_zeroed(layout, block, after) <==> after.inner.info == before.inner.info
            && before.inner.inner.allocated_zeroed(layout, block, after.inner.inner),
        before.allocated(layout, block, after) <==> after.inner.info == before.inner.info
            && before.inner.inner.allocated(layout, block, after.inner.inner),
{
}

/// To give back a block of no bytes through a zero-on-free allocator is to
/// give it back to the allocator beneath: there is no byte to write, and the
/// block is handed on as it is.
pub proof fn law_empty_block_is_handed_on<A: Allocator>(
    before: ZeroOnFreeAllocator<A>,
    block: Seq<u8>,
    layout: Layout,
    after: ZeroOnFreeAllocator<A>,
)
    requires
        block.len() == 0,
    ensures
        crate::memory::zeros(block.len()) == block,
        crate::memory::all_zero(block),
        before.deallocated(block, layout, after) <==> before.inner.deallocated(
            block,
            layout,
            after.inner,
        ),
{
    assert(crate::memory::zeros(block.len()) =~= block);
}

/// To move a block through a zero-on-free allocator is to free the old
/// block, so an auditor beneath records the old block as all zero,
/// whatever it held. The moved block has the old bytes at its start.
pub proof fn law_moved_block_is_seen_zeroed<A: Allocator, const CAPACITY: usize>(
    before: ZeroOnFreeAllocator<Auditor<A, CAPACITY>>,
    block: Seq<u8>,
    layout: Layout,
    new_size: usize,
    fresh: Seq<u8>,
    between: ZeroOnFreeAllocator<Auditor<A, CAPACITY>>,
    after: ZeroOnFreeAllocator<Auditor<A, CAPACITY>>,
)
    requires
        before.allocated(layout.resized(new_size), Some(fresh), between),
        between.deallocated(block, layout, after),
        fresh.len() == new_size,
    ensures
        after.inner.info.history() == before.inner.info.history().push(true),
        forall|i: int|
            0 <= i < block.len() && i < new_size ==> crate::allocator::carried_over(block, fresh)[i]
                == block[i],
        crate::allocator::carried_over(block, fresh).len() == new_size,
        layout.resized(new_size).size_spec() == new_size,
        layout.resized(new_size).align_spec() == layout.align_spec(),
{
    law_freed_block_is_seen_zeroed(between, block, layout, after);
    layout.lemma_resized(new_size);
}

/// Whatever calls are made on a zero-on-free allocator with an auditor
/// beneath it, with whatever sizes, and whatever the blocks hold when they
/// are given back: after the first `k` of them the auditor's history is what
/// it was at the start, and then one `true` for each deallocation among
/// them.
pub proof fn law_every_free_is_seen_zeroed<A: Allocator, const CAPACITY: usize>(
    states: Seq<ZeroOnFreeAllocator<Auditor<A, CAPACITY>>>,
    calls: Seq<Call>,
    k: int,
)
    requires
        run(states, calls),
        0 <= k <= calls.len(),
    ensures
        states[k].inner.info.history() == states[0].inner.info.history() + all_zeroed(
            frees(calls.take(k)),
        ),
    decreases k,
{
    let start = states[0].inner.info.history();
    if k == 0 {
        assert(calls.take(0) =~= Seq::<Call>::empty());
        assert(start + all_zeroed(0) =~= start);
    } else {
        law_every_free_is_seen_zeroed(states, calls, k - 1);
        let call = calls[k - 1];
        assert(step(states[k - 1], call, states[k]));
        assert(calls.take(k).drop_last() =~= calls.take(k - 1));
        assert(calls.take(k).last() == call);
        let seen = frees(calls.take(k - 1));
        match call {
            Call::Deallocate { block, layout } => {
                law_freed_block_is_seen_zeroed(states[k - 1], block, layout, states[k]);
                assert((start + all_zeroed(seen)).push(true) =~= start + all_zeroed(seen + 1));
            },
            _ => {},
        }
    }
}

/// Where the auditor beneath a zero-on-free allocator starts with an empty
/// record, `verify_all_zeroed` holds after every call of every run.
pub proof fn law_every_check_passes<A: Allocator, const CAPACITY: usize>(
    states: Seq<ZeroOnFreeAllocator<Auditor<A, CAPACITY>>>,
    calls: Seq<Call>,
    k: int,
)
    requires
        run(states, calls),
        0 <= k <= calls.len(),
        states[0].inner.info.history().len() == 0,
    ensures
        crate::audit::all_true(states[k].inner.info.history()),
        crate::audit::all_true(
            crate::audit::recent(states[k].inner.info.history(), CAPACITY as nat),
        ),
{
    law_every_free_is_seen_zeroed(states, calls, k);
}

/// An auditor with no zero-on-free allocator above it records a block as it
/// is. One free of a block that is not all zero makes `verify_all_zeroed`
/// false.
pub proof fn law_unzeroed_free_is_seen<A: Allocator, const CAPACITY: usize>(
    before: Auditor<A, CAPACITY>,
    block: Seq<u8>,
    layout: Layout,
    after: Auditor<A, CAPACITY>,
)
    requires
        CAPACITY > 0,
        before.deallocated(block, layout, after),
    ensures
        after.info.history() == before.info.history().push(crate::memory::all_zero(block)),
        before.inner.deallocated(block, layout, after.inner),
        !crate::memory::all_zero(block) ==> !crate::audit::all_true(
            crate::audit::recent(after.info.history(), CAPACITY as nat),
        ),
{
    let history = after.info.history();
    let window = crate::audit::recent(history, CAPACITY as nat);
    assert(window.len() > 0);
    assert(window[window.len() - 1] == history[history.len() - 1]);
}

/// `verify_all_zeroed` speaks of the most recent frees only: once as many
/// zero blocks were freed as the log has entries, it holds, whatever was
/// freed before. It holds of the empty record too.
pub proof fn law_only_recent_frees_count(earlier: Seq<bool>, capacity: nat)
    ensures
        crate::audit::all_true(crate::audit::recent(earlier + all_zeroed(capacity), capacity)),
        crate::audit::all_true(crate::audit::recent(Seq::<bool>::empty(), capacity)),
{
}

} // verus!

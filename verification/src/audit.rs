//! The auditor's record: a counter of the frees seen since it was last
//! cleared, and a log of fixed size that holds, for the most recent of them,
//! whether the freed block was all zero.

use vstd::prelude::*;

use crate::memory::is_zeroed;

verus! {

/// The last `capacity` entries of `history`, or all of it where it has no
/// more than that.
pub open spec fn recent(history: Seq<bool>, capacity: nat) -> Seq<bool> {
    if history.len() <= capacity {
        history
    } else {
        history.subrange(history.len() - capacity, history.len() as int)
    }
}

/// Whether every entry of `entries` is true. It is of the empty sequence.
pub open spec fn all_true(entries: Seq<bool>) -> bool {
    forall|i: int| 0 <= i < entries.len() ==> entries[i]
}

/// The smaller of two numbers.
pub open spec fn min(a: nat, b: nat) -> nat {
    if a <= b {
        a
    } else {
        b
    }
}

/// What an auditor knows of the frees it has seen: how many there were since
/// the last `clear`, and a log of `CAPACITY` entries, written round and
/// round, of whether each freed block was all zero. Free number `n` (the
/// first one is number 0) is written to entry `n % CAPACITY`, so the log
/// always holds the most recent `CAPACITY` frees.
pub struct AllocInfo<const CAPACITY: usize> {
    free_count: usize,
    zeroed: [bool; CAPACITY],
    history: Ghost<Seq<bool>>,
}

impl<const CAPACITY: usize> AllocInfo<CAPACITY> {
    /// The number of frees recorded since the last `clear`.
    pub closed spec fn free_count_spec(&self) -> nat {
        self.free_count as nat
    }

    /// The log: `CAPACITY` entries.
    pub closed spec fn zeroed_spec(&self) -> Seq<bool> {
        self.zeroed@
    }

    /// What was recorded since the last `clear`, oldest first: entry `n` is
    /// whether the block of free number `n` was all zero. The log holds only
    /// its most recent part; this is all of it.
    pub closed spec fn history(&self) -> Seq<bool> {
        self.history@
    }

    /// The invariant of the record: the log has at least one entry, the
    /// counter is the length of the history, and the log holds the most
    /// recent part of the history, free number `n` at entry `n % CAPACITY`.
    pub open spec fn wf(&self) -> bool {
        &&& CAPACITY > 0
        &&& self.zeroed_spec().len() == CAPACITY
        &&& self.free_count_spec() == self.history().len()
        &&& forall|n: int|
            0 <= n < self.history().len() && self.history().len() - CAPACITY <= n
                ==> self.zeroed_spec()[n % (CAPACITY as int)] == #[trigger] self.history()[n]
    }

    /// Whether `after` is this record with one more free recorded: of a block
    /// that was all zero where `zeroed` is true, of another where it is not.
    pub open spec fn recorded(&self, zeroed: bool, after: Self) -> bool {
        &&& after.history() == self.history().push(zeroed)
        &&& after.free_count_spec() == self.free_count_spec() + 1
        &&& after.zeroed_spec() == self.zeroed_spec().update(
            self.free_count_spec() as int % (CAPACITY as int),
            zeroed,
        )
    }

    /// A record of no frees, with every entry of the log false.
    pub fn new() -> (info: Self)
        requires
            CAPACITY > 0,
        ensures
            info.wf(),
            info.free_count_spec() == 0,
            info.history() == Seq::<bool>::empty(),
            info.zeroed_spec() == Seq::new(CAPACITY as nat, |i: int| false),
    {
        let info = AllocInfo { free_count: 0, zeroed: [false;CAPACITY], history: Ghost(Seq::empty()) };
        assert(info.zeroed@ =~= Seq::new(CAPACITY as nat, |i: int| false));
        info
    }

    /// The number of frees recorded since the last `clear`.
    pub fn free_count(&self) -> (count: usize)
        ensures
            count == self.free_count_spec(),
    {
        self.free_count
    }

    /// The number of entries of the log.
    pub fn capacity(&self) -> (capacity: usize)
        ensures
            capacity == CAPACITY,
    {
        CAPACITY
    }

    /// Entry `index` of the log.
    pub fn entry(&self, index: usize) -> (zeroed: bool)
        requires
            index < CAPACITY,
        ensures
            zeroed == self.zeroed_spec()[index as int],
    {
        self.zeroed[index]
    }

    /// Records one free: writes `zeroed` to the entry that the counter
    /// points at, and adds one to the counter.
    pub fn record(&mut self, zeroed: bool)
        requires
            old(self).wf(),
            old(self).free_count_spec() < usize::MAX,
        ensures
            final(self).wf(),
            old(self).recorded(zeroed, *final(self)),
    {
        let index = self.free_count % CAPACITY;
        self.zeroed[index] = zeroed;
        self.free_count = self.free_count + 1;
        proof {
            self.history@ = self.history@.push(zeroed);
            let count = old(self).history@.len() as int;
            let capacity = CAPACITY as int;
            assert forall|n: int|
                0 <= n < self.history@.len() && self.history@.len() - CAPACITY <= n
                    implies self.zeroed@[n % capacity] == #[trigger] self.history@[n] by {
                if n < count {
                    lemma_slots_differ(n, count, capacity);
                }
            }
        }
    }

    /// Looks at a block that is being freed and records whether all of it is
    /// zero.
    pub fn inspect(&mut self, bytes: &[u8])
        requires
            old(self).wf(),
            old(self).free_count_spec() < usize::MAX,
        ensures
            final(self).wf(),
            old(self).recorded(crate::memory::all_zero(bytes@), *final(self)),
    {
        let zeroed = is_zeroed(bytes);
        self.record(zeroed);
    }

    /// Whether every free in the log was of a block that was all zero: the
    /// most recent `CAPACITY` frees since the last `clear`, or all of them
    /// where there were fewer. True where there was none.
    pub fn verify_all_zeroed(&self) -> (ok: bool)
        requires
            self.wf(),
        ensures
            ok == all_true(recent(self.history(), CAPACITY as nat)),
            ok == (forall|i: int|
                0 <= i < min(CAPACITY as nat, self.free_count_spec()) ==> self.zeroed_spec()[i]),
    {
        let to_check = if self.free_count < CAPACITY {
            self.free_count
        } else {
            CAPACITY
        };
        let mut i: usize = 0;
        while i < to_check
            invariant
                i <= to_check,
                to_check == min(CAPACITY as nat, self.free_count_spec()),
                self.wf(),
                forall|j: int| 0 <= j < i ==> self.zeroed@[j],
            decreases to_check - i,
        {
            if !self.zeroed[i] {
                proof {
                    self.lemma_false_entry(i as int);
                    assert(!self.zeroed_spec()[i as int]);
                }
                return false;
            }
            i += 1;
        }
        proof {
            self.lemma_true_entries();
        }
        true
    }

    /// Sets the counter back to zero. The entries of the log stay as they
    /// are; none of them is looked at until a later free has written it.
    pub fn clear(&mut self)
        requires
            old(self).wf(),
        ensures
            final(self).wf(),
            final(self).free_count_spec() == 0,
            final(self).history() == Seq::<bool>::empty(),
            final(self).zeroed_spec() == old(self).zeroed_spec(),
    {
        self.free_count = 0;
        proof {
            self.history@ = Seq::empty();
        }
    }

    /// A false entry among those that `verify_all_zeroed` looks at is a free
    /// of the recent part of the history that was not of a zero block.
    proof fn lemma_false_entry(&self, slot: int)
        requires
            self.wf(),
            0 <= slot < min(CAPACITY as nat, self.free_count_spec()),
            !self.zeroed@[slot],
        ensures
            !all_true(recent(self.history(), CAPACITY as nat)),
    {
        let count = self.history@.len() as int;
        let capacity = CAPACITY as int;
        let window = recent(self.history@, CAPACITY as nat);
        if count <= capacity {
            lemma_slot_of(slot, capacity, 0, slot);
            assert(!self.history@[slot]);
            assert(!window[slot]);
        } else {
            let start = count - capacity;
            let n = lemma_free_of_slot(slot, start, capacity);
            assert(!self.history@[n]);
            assert(window[n - start] == self.history@[n]);
        }
    }

    /// Where every entry that `verify_all_zeroed` looks at is true, every
    /// free of the recent part of the history was of a zero block.
    proof fn lemma_true_entries(&self)
        requires
            self.wf(),
            forall|j: int| 0 <= j < min(CAPACITY as nat, self.free_count_spec()) ==> self.zeroed@[j],
        ensures
            all_true(recent(self.history(), CAPACITY as nat)),
    {
        let count = self.history@.len() as int;
        let capacity = CAPACITY as int;
        let window = recent(self.history@, CAPACITY as nat);
        let start = if count <= capacity { 0 } else { count - capacity };
        assert forall|i: int| 0 <= i < window.len() implies window[i] by {
            let n = start + i;
            assert(window[i] == self.history@[n]);
            lemma_slot_in_range(n, capacity);
            if count <= capacity {
                lemma_slot_of(n, capacity, 0, n);
            }
            assert(self.zeroed@[n % capacity]);
        }
    }
}

/// Two different frees less than `capacity` apart go to different entries.
proof fn lemma_slots_differ(n: int, m: int, capacity: int)
    requires
        0 <= n < m < n + capacity,
    ensures
        n % capacity != m % capacity,
{
    if n % capacity == m % capacity {
        vstd::arithmetic::div_mod::lemma_fundamental_div_mod(n, capacity);
        vstd::arithmetic::div_mod::lemma_fundamental_div_mod(m, capacity);
        let qn = n / capacity;
        let qm = m / capacity;
        assert(m - n == capacity * qm - capacity * qn);
        assert(capacity * qm - capacity * qn == capacity * (qm - qn)) by (nonlinear_arith);
        assert(0 < capacity * (qm - qn) < capacity);
        assert(false) by (nonlinear_arith)
            requires
                0 < capacity * (qm - qn) < capacity,
        ;
    }
}

/// The entry of a free is one of the log's.
proof fn lemma_slot_in_range(n: int, capacity: int)
    requires
        0 <= n,
        0 < capacity,
    ensures
        0 <= n % capacity < capacity,
{
    vstd::arithmetic::div_mod::lemma_mod_bound(n, capacity);
}

/// Free number `capacity * round + slot` goes to entry `slot`.
proof fn lemma_slot_of(n: int, capacity: int, round: int, slot: int)
    requires
        0 <= slot < capacity,
        n == capacity * round + slot,
    ensures
        n % capacity == slot,
{
    assert(capacity * round == round * capacity) by (nonlinear_arith);
    vstd::arithmetic::div_mod::lemma_fundamental_div_mod_converse(n, capacity, round, slot);
}

/// Among any `capacity` frees in a row, one goes to the given entry.
proof fn lemma_free_of_slot(slot: int, start: int, capacity: int) -> (n: int)
    requires
        0 <= slot < capacity,
        0 <= start,
    ensures
        start <= n < start + capacity,
        n % capacity == slot,
{
    vstd::arithmetic::div_mod::lemma_fundamental_div_mod(start, capacity);
    vstd::arithmetic::div_mod::lemma_mod_bound(start, capacity);
    let round = start / capacity;
    if slot >= start % capacity {
        let n = capacity * round + slot;
        lemma_slot_of(n, capacity, round, slot);
        n
    } else {
        let n = capacity * (round + 1) + slot;
        assert(capacity * (round + 1) == capacity * round + capacity) by (nonlinear_arith);
        lemma_slot_of(n, capacity, round + 1, slot);
        n
    }
}

} // verus!

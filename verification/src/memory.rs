//! The two operations that touch the bytes of a block: filling a block with
//! zero bytes, and telling whether a block holds nothing but zero bytes.

use vstd::prelude::*;

verus! {

/// The block of `len` bytes that are all zero.
pub open spec fn zeros(len: nat) -> Seq<u8> {
    Seq::new(len, |i: int| 0u8)
}

/// Whether every byte of `bytes` is zero. The empty block is zeroed.
pub open spec fn all_zero(bytes: Seq<u8>) -> bool {
    forall|i: int| 0 <= i < bytes.len() ==> bytes[i] == 0u8
}

/// Overwrites every byte of `bytes` with zero, in one pass from the first
/// byte to the last. An empty block is left as it is.
pub fn zero_fill(bytes: &mut [u8])
    ensures
        final(bytes)@ == zeros(old(bytes)@.len()),
{
    let len = bytes.len();
    let mut i: usize = 0;
    while i < len
        invariant
            i <= len,
            bytes@.len() == len,
            len == old(bytes)@.len(),
            forall|j: int| 0 <= j < i ==> bytes@[j] == 0u8,
        decreases len - i,
    {
        bytes[i] = 0;
        i += 1;
    }
}

/// Whether every byte of `bytes` is zero. Reads the bytes in order and stops
/// at the first one that is not zero; of an empty block it reads nothing.
pub fn is_zeroed(bytes: &[u8]) -> (zeroed: bool)
    ensures
        zeroed == all_zero(bytes@),
{
    let len = bytes.len();
    let mut i: usize = 0;
    while i < len
        invariant
            i <= len,
            bytes@.len() == len,
            forall|j: int| 0 <= j < i ==> bytes@[j] == 0u8,
        decreases len - i,
    {
        if bytes[i] != 0 {
            return false;
        }
        i += 1;
    }
    true
}

} // verus!

//! The shape of a memory request: how many bytes, and how they are aligned.

use vstd::arithmetic::power2::is_pow2;
use vstd::prelude::*;

use crate::errors::{CustomError, CustomErrorKind};

verus! {

/// Whether `n` is a power of two.
pub fn is_power_of_two(n: usize) -> (yes: bool)
    ensures
        yes == is_pow2(n as int),
{
    if n == 0 {
        proof {
            reveal(is_pow2);
        }
        return false;
    }
    let mut m: usize = n;
    while m % 2 == 0
        invariant
            m > 0,
            is_pow2(m as int) == is_pow2(n as int),
        decreases m,
    {
        proof {
            reveal(is_pow2);
        }
        m = m / 2;
    }
    proof {
        reveal(is_pow2);
    }
    m == 1
}

/// A memory request: `size` bytes at an address that is a multiple of
/// `align`. The alignment of every `Layout` is a power of two.
#[derive(Debug, Clone, Copy, PartialEq, Eq, Structural)]
pub struct Layout {
    size: usize,
    align: usize,
}

impl Layout {
    /// The number of bytes asked for.
    pub closed spec fn size_spec(self) -> nat {
        self.size as nat
    }

    /// The alignment asked for.
    pub closed spec fn align_spec(self) -> nat {
        self.align as nat
    }

    /// The invariant of the type: the alignment is a power of two.
    #[verifier::type_invariant]
    pub closed spec fn wf(self) -> bool {
        is_pow2(self.align as int)
    }

    /// The layout of `size` bytes with the alignment of this one.
    pub closed spec fn resized(self, size: usize) -> Layout {
        Layout { size, align: self.align }
    }

    /// A resized layout has the new size, and the alignment that it had.
    pub proof fn lemma_resized(self, size: usize)
        ensures
            self.resized(size).size_spec() == size,
            self.resized(size).align_spec() == self.align_spec(),
            self.wf() ==> self.resized(size).wf(),
            self.resized(self.size_spec() as usize) == self,
    {
    }

    /// The text of the error that `from_size_align` gives.
    pub open spec fn bad_alignment_text() -> Seq<char> {
        "alignment is not a power of two"@
    }

    /// The layout of `size` bytes aligned to `align`, or an error of the kind
    /// `InvalidArgument` where `align` is not a power of two.
    pub fn from_size_align(size: usize, align: usize) -> (result: Result<Layout, CustomError>)
        ensures
            result is Ok <==> is_pow2(align as int),
            result matches Ok(layout) ==> layout.wf() && layout.size_spec() == size
                && layout.align_spec() == align,
            result matches Err(error) ==> error.kind_spec() == CustomErrorKind::InvalidArgument
                && error.message_spec() == Self::bad_alignment_text(),
    {
        if is_power_of_two(align) {
            Ok(Layout { size, align })
        } else {
            Err(CustomError::new(CustomErrorKind::InvalidArgument, "alignment is not a power of two"))
        }
    }

    /// The number of bytes asked for.
    pub fn size(&self) -> (size: usize)
        ensures
            size == self.size_spec(),
    {
        self.size
    }

    /// The alignment asked for: a power of two.
    pub fn align(&self) -> (align: usize)
        ensures
            align == self.align_spec(),
            is_pow2(align as int),
    {
        proof {
            use_type_invariant(self);
        }
        self.align
    }

    /// The layout of `size` bytes with the alignment of this one.
    pub fn with_size(&self, size: usize) -> (layout: Layout)
        ensures
            layout == self.resized(size),
            layout.wf(),
            layout.size_spec() == size,
            layout.align_spec() == self.align_spec(),
    {
        proof {
            use_type_invariant(self);
        }
        Layout { size, align: self.align }
    }
}

} // verus!

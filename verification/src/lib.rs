//! Zero-on-free allocation, with the means to check it.
//!
//! [`zero_on_free::ZeroOnFreeAllocator`] wraps an allocator and overwrites
//! every block with zero bytes before the allocator beneath takes it back,
//! so that nothing of what a block held is left in memory that is free.
//! [`auditor::Auditor`] is a second wrapper, meant to sit beneath the first:
//! it looks at every block on its way back and records whether it was all
//! zero. [`laws`] holds what is proved of the two together.
//!
//! [`allocator`] says what an allocator is here and has a plain one,
//! [`layout`] the shape of a request, [`memory`] the two operations that
//! touch the bytes of a block, and [`audit`] the auditor's record.
//!
//! Beside these stand [`errors`], the error type of the crate, and
//! [`expand`], which writes the expansions of two small macros.

pub mod allocator;
pub mod audit;
pub mod auditor;
pub mod errors;
pub mod expand;
pub mod laws;
pub mod layout;
pub mod memory;
pub mod zero_on_free;

//! Errors reported when a caller breaks an allocator's usage discipline.
//!
//! The raw-pointer designs that these allocators descend from treat such
//! calls as undefined behaviour; here every one of them is checked and
//! reported, and the allocator's state is left unchanged.

use vstd::prelude::*;

verus! {

/// A checked violation of an allocator's usage contract.
#[derive(Clone, Copy, Debug, PartialEq, Eq, Structural)]
pub enum MemoryError {
    /// A checkpoint or mark lies ahead of the current cursor: it was taken
    /// from a state that has already been rewound away.
    InvalidCheckpoint,
    /// A stack free named an allocation that is not the live top of the
    /// stack.
    OutOfOrderFree,
    /// A pool free named a chunk this pool does not own, or one that is not
    /// currently allocated.
    ForeignPointer,
}

impl MemoryError {
    /// A short description of the violation.
    pub fn describe(&self) -> (r: &'static str)
        ensures
            r@ == match self {
                MemoryError::InvalidCheckpoint => "checkpoint lies ahead of the current cursor"@,
                MemoryError::OutOfOrderFree => "freed allocation is not the top of the stack"@,
                MemoryError::ForeignPointer => "chunk is not a live allocation of this pool"@,
            },
    {
        match self {
            MemoryError::InvalidCheckpoint => "checkpoint lies ahead of the current cursor",
            MemoryError::OutOfOrderFree => "freed allocation is not the top of the stack",
            MemoryError::ForeignPointer => "chunk is not a live allocation of this pool",
        }
    }
}

} // verus!

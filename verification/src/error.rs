//! Error values surfaced by the container's fallible operations.

use vstd::prelude::*;

verus! {

/// Why constructing a container can fail.
#[derive(Debug, Clone, Copy, PartialEq, Eq, Structural)]
pub enum TryReserveError {
    /// The requested capacity's byte size exceeds the platform's maximum
    /// single-allocation size (`isize::MAX` bytes).
    CapacityOverflow,
    /// The allocator could not provide the requested storage.
    AllocationFailure,
}

/// A push found the container already holding `capacity` elements.
#[derive(Debug, Clone, Copy, PartialEq, Eq, Structural)]
pub struct VecFull;

} // verus!

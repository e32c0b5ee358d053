//! Capacity validation against the platform's single-allocation limit.
//!
//! A request for `count` elements of type `T` is admissible only when the
//! implied byte size `count * size_of::<T>()` fits the signed pointer-offset
//! limit (`isize::MAX` bytes), because no single allocation may be larger.
//! Zero-sized elements occupy no memory, so any count of them collapses to
//! zero internal storage while the requested count is still reported to
//! callers by the container that holds the [`Cap`].

use vstd::prelude::*;

verus! {

/// A capacity request for `count` elements of `T` is admissible: either `T`
/// occupies no memory, or the implied byte size fits `isize::MAX`.
pub open spec fn spec_valid_capacity<T>(count: usize) -> bool {
    ||| vstd::layout::size_of::<T>() == 0
    ||| count * vstd::layout::size_of::<T>() <= isize::MAX as usize
}

/// True exactly when `T` occupies no memory.
pub fn is_zst<T>() -> (r: bool)
    ensures
        r == (vstd::layout::size_of::<T>() == 0),
{
    core::mem::size_of::<T>() == 0
}

/// A validated internal-storage element count.
///
/// The held value never exceeds `isize::MAX`, so it can always be used as an
/// element count of a single allocation. For a zero-sized element type the
/// held value is zero, whatever count was requested: no storage is needed.
#[derive(Debug, Clone, Copy, PartialEq, Eq, Structural)]
pub struct Cap(usize);

impl Cap {
    /// The value this capacity stands for.
    pub closed spec fn spec_get(self) -> usize {
        self.0
    }

    #[verifier::type_invariant]
    spec fn type_inv(self) -> bool {
        self.0 <= isize::MAX as usize
    }

    /// The zero capacity: unallocated storage.
    pub fn zero() -> (c: Cap)
        ensures
            c.spec_get() == 0,
    {
        Cap(0)
    }

    /// Validates a requested element count for elements of type `T`.
    ///
    /// For a zero-sized `T` the result is always the zero capacity. Otherwise
    /// the count is accepted exactly when `count * size_of::<T>()` does not
    /// exceed `isize::MAX` bytes.
    pub fn new<T>(count: usize) -> (r: Option<Cap>)
        ensures
            r is Some <==> spec_valid_capacity::<T>(count),
            r matches Some(c) ==> c.spec_get() == (if vstd::layout::size_of::<T>() == 0 {
                0usize
            } else {
                count
            }),
    {
        let size = core::mem::size_of::<T>();
        if size == 0 {
            Some(Cap(0))
        } else {
            match count.checked_mul(size) {
                Some(bytes) => {
                    if bytes <= isize::MAX as usize {
                        proof {
                            assert(count <= count * size) by (nonlinear_arith)
                                requires size >= 1
                            ;
                        }
                        Some(Cap(count))
                    } else {
                        None
                    }
                },
                None => None,
            }
        }
    }

    /// Returns the capacity as a primitive value.
    pub fn get(self) -> (r: usize)
        ensures
            r == self.spec_get(),
            r <= isize::MAX as usize,
    {
        proof {
            use_type_invariant(&self);
        }
        self.0
    }
}

} // verus!

//! The exclusive write surface of an [`AtomicVec`].

use vstd::prelude::*;

verus! {

use crate::{AtomicVec, Global};
use crate::error::VecFull;

/// An exclusive, scope-bound write handle for an [`AtomicVec`].
///
/// At most one guard exists for a given container at any time, because the
/// guard holds the container's only mutable borrow for its whole scope. Every
/// mutation of the container goes through a guard; dropping the guard
/// releases the container for the next writer.
pub struct AtomicVecGuard<'a, T, A = Global> {
    vec: &'a mut AtomicVec<T, A>,
}

impl<'a, T, A> View for AtomicVecGuard<'a, T, A> {
    type V = Seq<T>;

    /// The guarded container's initialized prefix, in index order.
    open spec fn view(&self) -> Seq<T> {
        self.inner()@
    }
}

impl<'a, T, A> AtomicVecGuard<'a, T, A> {
    /// The borrow of the guarded container.
    pub closed spec fn inner(self) -> &'a mut AtomicVec<T, A> {
        self.vec
    }

    /// The guarded container's capacity.
    pub open spec fn spec_capacity(self) -> usize {
        self.inner().spec_capacity()
    }

    /// The guarded container's allocator handle.
    pub open spec fn spec_allocator(self) -> A {
        self.inner().spec_allocator()
    }

    pub(crate) fn new(vec: &'a mut AtomicVec<T, A>) -> (g: Self)
        ensures
            g@ == old(vec)@,
            g.spec_capacity() == old(vec).spec_capacity(),
            g.spec_allocator() == old(vec).spec_allocator(),
            *final(vec) == *final(g.inner()),
    {
        AtomicVecGuard { vec }
    }

    /// A read-only view of the initialized prefix `[0, len)`.
    pub fn as_slice(&self) -> (s: &[T])
        ensures
            s@ == self@,
            s@.len() <= self.spec_capacity(),
    {
        self.vec.as_slice()
    }

    /// True exactly when no element has been pushed yet.
    pub fn is_empty(&self) -> (r: bool)
        ensures
            r == (self@.len() == 0),
    {
        self.len() == 0
    }

    /// True exactly when every slot holds an element, so no further push can
    /// succeed.
    pub fn is_full(&self) -> (r: bool)
        ensures
            r == (self@.len() == self.spec_capacity()),
    {
        self.len() == self.capacity()
    }

    /// The guarded container's capacity.
    pub fn capacity(&self) -> (c: usize)
        ensures
            c == self.spec_capacity(),
    {
        self.vec.capacity()
    }

    /// How many elements have been pushed so far. Never exceeds the
    /// capacity.
    pub fn len(&self) -> (n: usize)
        ensures
            n == self@.len(),
            n <= self.spec_capacity(),
    {
        self.vec.len()
    }

    /// Writes `value` into the next free slot and publishes the new length.
    ///
    /// The container must not be full. A caller that cannot rule a full
    /// container out uses [`AtomicVecGuard::try_push`], which reports the
    /// condition instead of demanding it away.
    pub fn push(&mut self, value: T)
        requires
            old(self)@.len() < old(self).spec_capacity(),
        ensures
            final(self)@ == old(self)@.push(value),
            final(self).spec_capacity() == old(self).spec_capacity(),
            final(self).spec_allocator() == old(self).spec_allocator(),
            *final(final(self).inner()) == *final(old(self).inner()),
    {
        let _ = self.vec.push_internal(value);
    }

    /// Writes `value` into the next free slot and publishes the new length,
    /// or returns `VecFull` (discarding `value`) when the container is
    /// already holding `capacity` elements. A failed push leaves the
    /// contents exactly as they were.
    pub fn try_push(&mut self, value: T) -> (r: Result<(), VecFull>)
        ensures
            r is Ok <==> old(self)@.len() < old(self).spec_capacity(),
            old(self)@.len() < old(self).spec_capacity() ==> final(self)@ == old(self)@.push(
                value,
            ),
            old(self)@.len() >= old(self).spec_capacity() ==> (r == Err::<(), VecFull>(VecFull)
                && final(self)@ == old(self)@),
            final(self).spec_capacity() == old(self).spec_capacity(),
            final(self).spec_allocator() == old(self).spec_allocator(),
            *final(final(self).inner()) == *final(old(self).inner()),
    {
        self.vec.push_internal(value)
    }

    /// Releases the guard. Dropping the guard releases it just as well; an
    /// explicit release also hands a verified caller the fact that the
    /// container now holds exactly what the guard last held.
    pub fn unlock(self)
        ensures
            *final(self.inner()) == *self.inner(),
    {
    }

    /// Appends every element of `values`, in order, after the elements
    /// already present. The elements must all fit in the remaining free
    /// slots.
    pub fn extend(&mut self, values: Vec<T>)
        requires
            old(self)@.len() + values@.len() <= old(self).spec_capacity(),
        ensures
            final(self)@ == old(self)@ + values@,
            final(self).spec_capacity() == old(self).spec_capacity(),
            final(self).spec_allocator() == old(self).spec_allocator(),
            *final(final(self).inner()) == *final(old(self).inner()),
    {
        self.vec.extend_internal(values)
    }
}

} // verus!

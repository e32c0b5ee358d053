//! A fixed-capacity vector that separates a cheap read surface from an
//! exclusive write surface.
//!
//! An [`AtomicVec`] is constructed once with a fixed capacity and only ever
//! grows by appending: initialized elements always form a contiguous prefix
//! `[0, len)`, and `len` never exceeds the capacity fixed at construction.
//! Reads (`len`, `as_slice`, `get`) need only a shared borrow. All writes go
//! through an [`AtomicVecGuard`](guard::AtomicVecGuard), obtained from
//! [`AtomicVec::lock`], which holds the container exclusively for its whole
//! scope: the exclusive borrow plays the role of the write lock, so no write
//! can ever race another write, and the prefix property is an invariant of
//! the type.

use vstd::prelude::*;

pub mod cap;
pub mod error;
pub mod guard;

verus! {

use crate::cap::{Cap, spec_valid_capacity};
use crate::error::{TryReserveError, VecFull};
use crate::guard::AtomicVecGuard;

/// The default allocator marker: the global allocator backs the storage.
#[derive(Debug, Clone, Copy)]
pub struct Global;

/// A fixed-capacity vector: reads take a shared borrow, writes an exclusive
/// guard.
///
/// The allocator parameter `A` is a compile-time handle recording which
/// allocator the storage was requested from; it is carried by value and
/// reported by [`AtomicVec::allocator`].
pub struct AtomicVec<T, A = Global> {
    elems: Vec<T>,
    cap: usize,
    raw: Cap,
    alloc: A,
}

impl<T, A> View for AtomicVec<T, A> {
    type V = Seq<T>;

    /// The initialized prefix, in index order.
    closed spec fn view(&self) -> Seq<T> {
        self.elems@
    }
}

/// Getters for [`AtomicVec<T>`].
impl<T, A> AtomicVec<T, A> {
    /// The capacity fixed at construction, as reported to callers. For a
    /// zero-sized element type this can exceed the internal storage capacity,
    /// which is then zero.
    pub closed spec fn spec_capacity(self) -> usize {
        self.cap
    }

    /// The allocator handle the container was constructed with.
    pub closed spec fn spec_allocator(self) -> A {
        self.alloc
    }

    /// The validated internal-storage capacity.
    pub closed spec fn spec_raw_cap(self) -> Cap {
        self.raw
    }

    #[verifier::type_invariant]
    spec fn type_inv(self) -> bool {
        &&& self.elems@.len() <= self.cap
        &&& spec_valid_capacity::<T>(self.cap)
        &&& self.raw.spec_get() == (if vstd::layout::size_of::<T>() == 0 {
            0usize
        } else {
            self.cap
        })
    }

    /// True exactly when no element has been pushed yet.
    pub fn is_empty(&self) -> (r: bool)
        ensures
            r == (self@.len() == 0),
    {
        self.len() == 0
    }

    /// True exactly when every slot holds an element, so no further push
    /// can succeed.
    pub fn is_full(&self) -> (r: bool)
        ensures
            r == (self@.len() == self.spec_capacity()),
    {
        self.len() == self.capacity()
    }

    /// The capacity fixed at construction.
    pub fn capacity(&self) -> (c: usize)
        ensures
            c == self.spec_capacity(),
    {
        self.cap
    }

    /// How many elements have been pushed so far. Never exceeds the
    /// capacity.
    pub fn len(&self) -> (n: usize)
        ensures
            n == self@.len(),
            n <= self.spec_capacity(),
    {
        proof {
            use_type_invariant(&*self);
        }
        self.elems.len()
    }

    /// The allocator handle the container was constructed with.
    pub fn allocator(&self) -> (a: &A)
        ensures
            *a == self.spec_allocator(),
    {
        &self.alloc
    }

    /// The validated internal-storage capacity: zero for a zero-sized
    /// element type, the requested capacity otherwise.
    pub fn raw_cap(&self) -> (c: Cap)
        ensures
            c == self.spec_raw_cap(),
            c.spec_get() == (if vstd::layout::size_of::<T>() == 0 {
                0usize
            } else {
                self.spec_capacity()
            }),
    {
        proof {
            use_type_invariant(&*self);
        }
        self.raw
    }

    /// A read-only view of the initialized prefix `[0, len)`.
    pub fn as_slice(&self) -> (s: &[T])
        ensures
            s@ == self@,
            s@.len() <= self.spec_capacity(),
    {
        proof {
            use_type_invariant(&*self);
        }
        self.elems.as_slice()
    }

    /// Bounds-checked access to one initialized element.
    pub fn get(&self, index: usize) -> (r: Option<&T>)
        ensures
            index < self@.len() ==> (r matches Some(e) && *e == self@[index as int]),
            index >= self@.len() ==> r is None,
    {
        if index < self.elems.len() {
            Some(&self.elems[index])
        } else {
            None
        }
    }
}

/// Crate-internal mutators: every write to the container goes through the
/// write guard, which holds the container's only mutable borrow.
impl<T, A> AtomicVec<T, A> {
    /// Writes `value` into the next free slot and publishes the new length,
    /// or reports `VecFull` (discarding `value`) when no free slot is left.
    pub(crate) fn push_internal(&mut self, value: T) -> (r: Result<(), VecFull>)
        ensures
            r is Ok <==> old(self)@.len() < old(self).spec_capacity(),
            old(self)@.len() < old(self).spec_capacity() ==> final(self)@ == old(self)@.push(
                value,
            ),
            old(self)@.len() >= old(self).spec_capacity() ==> (r == Err::<(), VecFull>(VecFull)
                && final(self)@ == old(self)@),
            final(self).spec_capacity() == old(self).spec_capacity(),
            final(self).spec_allocator() == old(self).spec_allocator(),
            final(self).spec_raw_cap() == old(self).spec_raw_cap(),
    {
        proof {
            use_type_invariant(&*self);
        }
        if self.elems.len() >= self.cap {
            return Err(VecFull);
        }
        let mut elems: Vec<T> = Vec::new();
        core::mem::swap(&mut elems, &mut self.elems);
        elems.push(value);
        self.elems = elems;
        Ok(())
    }

    /// Appends every element of `values` in order. The elements must all
    /// fit in the remaining free slots.
    pub(crate) fn extend_internal(&mut self, values: Vec<T>)
        requires
            old(self)@.len() + values@.len() <= old(self).spec_capacity(),
        ensures
            final(self)@ == old(self)@ + values@,
            final(self).spec_capacity() == old(self).spec_capacity(),
            final(self).spec_allocator() == old(self).spec_allocator(),
            final(self).spec_raw_cap() == old(self).spec_raw_cap(),
    {
        proof {
            use_type_invariant(&*self);
        }
        let mut vals = values;
        let mut elems: Vec<T> = Vec::new();
        core::mem::swap(&mut elems, &mut self.elems);
        elems.append(&mut vals);
        self.elems = elems;
    }

    /// Acquires the exclusive write guard.
    ///
    /// The returned guard holds this container's only mutable borrow, so a
    /// second guard cannot exist until the first one is dropped: the borrow
    /// is the write lock. Acquisition always succeeds here; the `Option`
    /// mirrors the surface of a lock that a failed writer leaves poisoned, a
    /// state this container cannot enter because its exclusive borrow cannot
    /// be abandoned mid-write.
    pub fn lock(&mut self) -> (r: Option<AtomicVecGuard<'_, T, A>>)
        ensures
            r is Some,
            r matches Some(g) ==> {
                &&& g@ == old(self)@
                &&& g.spec_capacity() == old(self).spec_capacity()
                &&& g.spec_allocator() == old(self).spec_allocator()
                &&& *final(self) == *final(g.inner())
            },
    {
        Some(AtomicVecGuard::new(self))
    }
}

impl<T, A> AtomicVec<T, A> {
    /// Constructs a new [`AtomicVec<T>`] with the provided allocator handle,
    /// returning an error instead of aborting when construction fails.
    ///
    /// The requested capacity is rejected with `CapacityOverflow` exactly
    /// when `capacity * size_of::<T>()` overflows `isize::MAX`; storage the
    /// allocator cannot provide is reported as `AllocationFailure`.
    /// Construction that needs no storage — a zero-sized element type, at
    /// any requested count, or a zero capacity — always succeeds.
    pub fn try_new_in(capacity: usize, alloc: A) -> (r: Result<Self, TryReserveError>)
        ensures
            r == Err::<Self, _>(TryReserveError::CapacityOverflow) <==> !spec_valid_capacity::<T>(
                capacity,
            ),
            r is Err ==> (r == Err::<Self, _>(TryReserveError::CapacityOverflow) || r == Err::<
                Self,
                _,
            >(TryReserveError::AllocationFailure)),
            vstd::layout::size_of::<T>() == 0 ==> r is Ok,
            capacity == 0 ==> r is Ok,
            r matches Ok(v) ==> {
                &&& v@ == Seq::<T>::empty()
                &&& v.spec_capacity() == capacity
                &&& v.spec_allocator() == alloc
            },
    {
        let raw = match Cap::new::<T>(capacity) {
            Some(c) => c,
            None => {
                proof {
                    assert(capacity == 0 ==> capacity * vstd::layout::size_of::<T>() == 0)
                        by (nonlinear_arith);
                }
                return Err(TryReserveError::CapacityOverflow);
            },
        };
        let mut elems: Vec<T> = Vec::new();
        let amount = raw.get();
        if amount == 0 {
            // No storage is needed: zero-sized elements, or a zero capacity.
            return Ok(AtomicVec { elems, cap: capacity, raw, alloc });
        }
        match elems.try_reserve(amount) {
            Ok(()) => Ok(AtomicVec { elems, cap: capacity, raw, alloc }),
            Err(_) => Err(TryReserveError::AllocationFailure),
        }
    }

    /// Constructs a new [`AtomicVec<T>`] with the provided allocator handle.
    ///
    /// The requested capacity must be admissible: callers that cannot
    /// guarantee this use [`AtomicVec::try_new_in`] instead. The storage is
    /// reserved up front when the allocator can provide it; otherwise it
    /// grows as elements arrive, and memory exhausted then aborts at the
    /// push that needs it.
    pub fn new_in(capacity: usize, alloc: A) -> (v: Self)
        requires
            spec_valid_capacity::<T>(capacity),
        ensures
            v@ == Seq::<T>::empty(),
            v.spec_capacity() == capacity,
            v.spec_allocator() == alloc,
    {
        let raw = Cap::new::<T>(capacity).unwrap();
        let mut elems: Vec<T> = Vec::new();
        let _ = elems.try_reserve(raw.get());
        AtomicVec { elems, cap: capacity, raw, alloc }
    }
}

impl<T> AtomicVec<T, Global> {
    /// Constructs a new [`AtomicVec<T>`] in the global allocator, returning
    /// an error instead of aborting when construction fails. Construction
    /// that needs no storage always succeeds.
    pub fn try_new(capacity: usize) -> (r: Result<Self, TryReserveError>)
        ensures
            r == Err::<Self, _>(TryReserveError::CapacityOverflow) <==> !spec_valid_capacity::<T>(
                capacity,
            ),
            r is Err ==> (r == Err::<Self, _>(TryReserveError::CapacityOverflow) || r == Err::<
                Self,
                _,
            >(TryReserveError::AllocationFailure)),
            vstd::layout::size_of::<T>() == 0 ==> r is Ok,
            capacity == 0 ==> r is Ok,
            r matches Ok(v) ==> {
                &&& v@ == Seq::<T>::empty()
                &&& v.spec_capacity() == capacity
            },
    {
        Self::try_new_in(capacity, Global)
    }

    /// Constructs a new [`AtomicVec<T>`] in the global allocator.
    pub fn new(capacity: usize) -> (v: Self)
        requires
            spec_valid_capacity::<T>(capacity),
        ensures
            v@ == Seq::<T>::empty(),
            v.spec_capacity() == capacity,
    {
        Self::new_in(capacity, Global)
    }

    /// A container of capacity `capacity`, already holding `capacity` copies
    /// of `elem`.
    pub fn from_elem(capacity: usize, elem: T) -> (v: Self) where T: Copy
        requires
            spec_valid_capacity::<T>(capacity),
        ensures
            v@ == Seq::new(capacity as nat, |i: int| elem),
            v.spec_capacity() == capacity,
    {
        let mut this = Self::new(capacity);
        let mut guard = this.lock().unwrap();
        let mut i: usize = 0;
        while i < capacity
            invariant
                i <= capacity,
                guard@.len() == i,
                forall|j: int| 0 <= j < i ==> guard@[j] == elem,
                guard.spec_capacity() == capacity,
                after_borrow(this) == *final(guard.inner()),
            decreases capacity - i,
        {
            guard.push(elem);
            i += 1;
        }
        guard.unlock();
        proof {
            assert(this@ =~= Seq::new(capacity as nat, |i: int| elem));
        }
        this
    }

    /// A container of capacity `capacity`, already holding `capacity`
    /// elements, each obtained from a fresh `T::default()` call.
    pub fn from_default(capacity: usize) -> (v: Self) where T: Default
        requires
            spec_valid_capacity::<T>(capacity),
        ensures
            v@.len() == capacity,
            v.spec_capacity() == capacity,
            forall|i: int| 0 <= i < capacity ==> call_ensures(T::default, (), #[trigger] v@[i]),
    {
        let mut this = Self::new(capacity);
        let mut guard = this.lock().unwrap();
        let mut i: usize = 0;
        while i < capacity
            invariant
                i <= capacity,
                guard@.len() == i,
                forall|j: int| 0 <= j < i ==> call_ensures(T::default, (), #[trigger] guard@[j]),
                guard.spec_capacity() == capacity,
                after_borrow(this) == *final(guard.inner()),
            decreases capacity - i,
        {
            guard.push(T::default());
            i += 1;
        }
        guard.unlock();
        this
    }

    /// A container exactly filled with the elements of `vec`: the capacity
    /// and the length both equal `vec.len()`, so the result is full.
    pub fn from_vec(vec: Vec<T>) -> (v: Self)
        requires
            spec_valid_capacity::<T>(vec@.len() as usize),
        ensures
            v@ == vec@,
            v.spec_capacity() == vec@.len(),
    {
        let cap = vec.len();
        let raw = Cap::new::<T>(cap).unwrap();
        AtomicVec { elems: vec, cap, raw, alloc: Global }
    }
}

/// Law: one push appends exactly one element and leaves every element that
/// was already written unchanged, so the contents a reader sees are always
/// the pushed values so far, in order (the prefix property).
pub proof fn lemma_push_prefix<T>(before: Seq<T>, after: Seq<T>, value: T)
    requires
        after == before.push(value),
    ensures
        after.len() == before.len() + 1,
        forall|i: int| 0 <= i < before.len() ==> after[i] == before[i],
        after[before.len() as int] == value,
{
}

/// Law: a bulk append leaves every already-written element in place — the
/// previous contents are a prefix of the new contents — and adds the new
/// values after them, in order.
pub proof fn lemma_extend_prefix<T>(before: Seq<T>, after: Seq<T>, values: Seq<T>)
    requires
        after == before + values,
    ensures
        after.len() == before.len() + values.len(),
        forall|i: int| 0 <= i < before.len() ==> after[i] == before[i],
        forall|i: int| 0 <= i < values.len() ==> after[before.len() + i] == values[i],
{
}

} // verus!

//! Buffer construction policies.
//!
//! The [`Allocator`] capability, for a scalar type and a pair of dimension
//! descriptors, names the buffer type backing that shape and offers two
//! construction operations: one that only reserves the slots and one that
//! fills them from a supplied sequence. [`DefaultAllocator`] implements the
//! capability three times — once per combination of dimension kinds — so
//! that the type system, not a run-time branch, selects the backing buffer.

use vstd::prelude::*;

use crate::dimension::{Dim, Dynamic, Static};
use crate::storage::{MatrixArray, MatrixVec, Storage, reserve_slots};

verus! {

/// The number of element slots a buffer for the shape `(r, c)` must hold.
pub open spec fn required_len<R: Dim, C: Dim>(r: R, c: C) -> nat {
    r.count_spec() * c.count_spec()
}

/// The allocation capability: for the scalar type `T` and the dimension pair
/// `(R, C)`, the backing buffer type and its two construction operations.
///
/// A supplied element sequence must have exactly [`required_len`] elements; a
/// caller that cannot guarantee the length uses
/// [`Allocator::try_allocate_from_iterator`], whose result says whether the
/// length matched.
pub trait Allocator<T: Copy + Default, R: Dim, C: Dim> {
    /// The buffer type backing a matrix of shape `(R, C)`.
    type Buffer: Storage<T>;

    /// Reserves a buffer of exactly `required_len(nrows, ncols)` slots
    /// without giving them meaningful values.
    ///
    /// Every slot holds the scalar's default value, so no slot is ever raw
    /// memory; but no contract promises what a slot yields before it is
    /// first written, and callers are expected to overwrite every slot
    /// before reading any.
    fn allocate_uninitialized(nrows: R, ncols: C) -> (buf: Self::Buffer)
        requires
            required_len(nrows, ncols) <= usize::MAX as nat,
        ensures
            buf.well_formed(),
            buf.contents().len() == required_len(nrows, ncols),
            buf.nrows_count() == nrows.count_spec(),
            buf.ncols_count() == ncols.count_spec(),
    ;

    /// Builds a buffer whose slots, in storage order, are exactly the
    /// supplied elements, in sequence order.
    fn allocate_from_iterator(nrows: R, ncols: C, elements: Vec<T>) -> (buf: Self::Buffer)
        requires
            elements@.len() == required_len(nrows, ncols),
        ensures
            buf.well_formed(),
            buf.contents() == elements@,
            buf.nrows_count() == nrows.count_spec(),
            buf.ncols_count() == ncols.count_spec(),
    ;

    /// Like [`Allocator::allocate_from_iterator`], but for a sequence whose
    /// length is not known in advance: the buffer is built exactly when the
    /// sequence has `required_len(nrows, ncols)` elements, and a shorter or
    /// longer sequence yields `None` instead of a partially or over-filled
    /// buffer.
    fn try_allocate_from_iterator(nrows: R, ncols: C, elements: Vec<T>) -> (buf: Option<
        Self::Buffer,
    >)
        ensures
            buf is Some <==> elements@.len() == required_len(nrows, ncols),
            buf matches Some(b) ==> {
                &&& b.well_formed()
                &&& b.contents() == elements@
                &&& b.nrows_count() == nrows.count_spec()
                &&& b.ncols_count() == ncols.count_spec()
            },
    ;
}

/// A shape with an empty axis needs no elements: its required length is zero,
/// so either allocation operation yields a buffer with zero slots, and an
/// empty element sequence meets the exact-length condition of the filling
/// operations.
pub proof fn lemma_zero_size<R: Dim, C: Dim>(r: R, c: C)
    requires
        r.count_spec() == 0 || c.count_spec() == 0,
    ensures
        required_len(r, c) == 0,
{
}

/// The default buffer selection: an inline, fixed-capacity [`MatrixArray`]
/// when both dimensions are [`Static`], a heap-backed [`MatrixVec`] carrying
/// the dimension values whenever at least one dimension is [`Dynamic`].
pub struct DefaultAllocator;

impl<T: Copy + Default, const R: usize, const C: usize> Allocator<
    T,
    Static<R>,
    Static<C>,
> for DefaultAllocator {
    type Buffer = MatrixArray<T, R, C>;

    fn allocate_uninitialized(nrows: Static<R>, ncols: Static<C>) -> (buf: MatrixArray<T, R, C>) {
        let n: usize = nrows.count() * ncols.count();
        MatrixArray::from_vec(reserve_slots(n))
    }

    fn allocate_from_iterator(nrows: Static<R>, ncols: Static<C>, elements: Vec<T>) -> (buf:
        MatrixArray<T, R, C>) {
        MatrixArray::from_vec(elements)
    }

    fn try_allocate_from_iterator(nrows: Static<R>, ncols: Static<C>, elements: Vec<T>) -> (buf:
        Option<MatrixArray<T, R, C>>) {
        let supplied: usize = elements.len();
        match nrows.count().checked_mul(ncols.count()) {
            Some(needed) => if supplied == needed {
                Some(Self::allocate_from_iterator(nrows, ncols, elements))
            } else {
                None
            },
            None => None,
        }
    }
}

impl<T: Copy + Default, C: Dim> Allocator<T, Dynamic, C> for DefaultAllocator {
    type Buffer = MatrixVec<T, Dynamic, C>;

    fn allocate_uninitialized(nrows: Dynamic, ncols: C) -> (buf: MatrixVec<T, Dynamic, C>)
        ensures
            MatrixVec::<T, Dynamic, C>::nrows_spec(buf) == nrows,
            MatrixVec::<T, Dynamic, C>::ncols_spec(buf) == ncols,
    {
        let length: usize = nrows.count() * ncols.count();
        MatrixVec::new(nrows, ncols, reserve_slots(length))
    }

    fn allocate_from_iterator(nrows: Dynamic, ncols: C, elements: Vec<T>) -> (buf: MatrixVec<
        T,
        Dynamic,
        C,
    >)
        ensures
            buf.nrows_spec() == nrows,
            buf.ncols_spec() == ncols,
    {
        MatrixVec::new(nrows, ncols, elements)
    }

    fn try_allocate_from_iterator(nrows: Dynamic, ncols: C, elements: Vec<T>) -> (buf: Option<
        MatrixVec<T, Dynamic, C>,
    >)
        ensures
            buf matches Some(b) ==> b.nrows_spec() == nrows && b.ncols_spec() == ncols,
    {
        let supplied: usize = elements.len();
        match nrows.count().checked_mul(ncols.count()) {
            Some(needed) => if supplied == needed {
                Some(Self::allocate_from_iterator(nrows, ncols, elements))
            } else {
                None
            },
            None => None,
        }
    }
}

impl<T: Copy + Default, const R: usize> Allocator<T, Static<R>, Dynamic> for DefaultAllocator {
    type Buffer = MatrixVec<T, Static<R>, Dynamic>;

    fn allocate_uninitialized(nrows: Static<R>, ncols: Dynamic) -> (buf: MatrixVec<
        T,
        Static<R>,
        Dynamic,
    >)
        ensures
            MatrixVec::<T, Static<R>, Dynamic>::nrows_spec(buf) == nrows,
            MatrixVec::<T, Static<R>, Dynamic>::ncols_spec(buf) == ncols,
    {
        let length: usize = nrows.count() * ncols.count();
        MatrixVec::new(nrows, ncols, reserve_slots(length))
    }

    fn allocate_from_iterator(nrows: Static<R>, ncols: Dynamic, elements: Vec<T>) -> (buf:
        MatrixVec<T, Static<R>, Dynamic>)
        ensures
            buf.nrows_spec() == nrows,
            buf.ncols_spec() == ncols,
    {
        MatrixVec::new(nrows, ncols, elements)
    }

    fn try_allocate_from_iterator(nrows: Static<R>, ncols: Dynamic, elements: Vec<T>) -> (buf:
        Option<MatrixVec<T, Static<R>, Dynamic>>)
        ensures
            buf matches Some(b) ==> b.nrows_spec() == nrows && b.ncols_spec() == ncols,
    {
        let supplied: usize = elements.len();
        match nrows.count().checked_mul(ncols.count()) {
            Some(needed) => if supplied == needed {
                Some(Self::allocate_from_iterator(nrows, ncols, elements))
            } else {
                None
            },
            None => None,
        }
    }
}

} // verus!

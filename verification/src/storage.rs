//! Buffer types backing a matrix's elements.
//!
//! A buffer owns exactly `rows * cols` element slots, fixed at construction;
//! no operation here resizes a buffer afterwards. Which buffer type backs a
//! matrix is decided structurally by the kinds of its two dimensions:
//! [`MatrixArray`] when both counts are compile-time constants, [`MatrixVec`]
//! when at least one is a run-time value. Both answer through the common
//! [`Storage`] capability.

use vstd::prelude::*;

use crate::dimension::Dim;

verus! {

/// The capability every buffer offers: its elements as a sequence in storage
/// order, its shape, and read and write access to every slot.
pub trait Storage<T: Copy>: Sized {
    /// The stored elements, in storage (traversal) order.
    spec fn contents(self) -> Seq<T>;

    /// The element count of the row axis this buffer was built for.
    spec fn nrows_count(self) -> nat;

    /// The element count of the column axis this buffer was built for.
    spec fn ncols_count(self) -> nat;

    /// Well-formedness: the slot count matches the shape. Constructors
    /// establish it and every operation preserves it.
    spec fn well_formed(self) -> bool;

    /// A well-formed buffer holds exactly one element slot per cell of its
    /// shape: its slot count is the product of the two axis counts.
    proof fn shape_size(self)
        requires
            self.well_formed(),
        ensures
            self.contents().len() == self.nrows_count() * self.ncols_count(),
    ;

    /// The number of element slots.
    fn len(&self) -> (n: usize)
        requires
            self.well_formed(),
        ensures
            n as nat == self.contents().len(),
            n as nat == self.nrows_count() * self.ncols_count(),
    ;

    /// The element in slot `i` of the storage order.
    fn get(&self, i: usize) -> (e: T)
        requires
            self.well_formed(),
            i < self.contents().len(),
        ensures
            e == self.contents()[i as int],
    ;

    /// Overwrites the element in slot `i` of the storage order, leaving every
    /// other slot and the shape unchanged.
    fn set(&mut self, i: usize, e: T)
        requires
            old(self).well_formed(),
            i < old(self).contents().len(),
        ensures
            final(self).well_formed(),
            final(self).contents() == old(self).contents().update(i as int, e),
            final(self).nrows_count() == old(self).nrows_count(),
            final(self).ncols_count() == old(self).ncols_count(),
    ;
}

/// Builds the element storage backing a freshly reserved buffer of `n` slots.
///
/// Every slot holds the scalar's default value: slots are materialized as
/// valid values rather than raw memory, so a read before the first overwrite
/// is well defined, though no contract promises what it yields.
pub(crate) fn reserve_slots<T: Default>(n: usize) -> (v: Vec<T>)
    ensures
        v@.len() == n as nat,
{
    let mut v: Vec<T> = Vec::new();
    let mut i: usize = 0;
    while i < n
        invariant
            i <= n,
            v@.len() == i as nat,
        decreases n - i,
    {
        v.push(T::default());
        i = i + 1;
    }
    v
}

/// A fixed-capacity buffer for a shape of `R` rows and `C` columns, both
/// compile-time constants.
///
/// The shape is recoverable from the type alone, so no dimension value is
/// stored. The buffer holds exactly `R * C` element slots from construction
/// on.
pub struct MatrixArray<T, const R: usize, const C: usize> {
    data: Vec<T>,
}

impl<T: Copy, const R: usize, const C: usize> MatrixArray<T, R, C> {
    /// Wraps element storage of exactly `R * C` slots as a buffer.
    pub fn from_vec(data: Vec<T>) -> (buf: Self)
        requires
            data@.len() == (R as nat) * (C as nat),
        ensures
            buf.well_formed(),
            buf.contents() == data@,
    {
        MatrixArray { data }
    }
}

impl<T: Copy, const R: usize, const C: usize> Storage<T> for MatrixArray<T, R, C> {
    closed spec fn contents(self) -> Seq<T> {
        self.data@
    }

    open spec fn nrows_count(self) -> nat {
        R as nat
    }

    open spec fn ncols_count(self) -> nat {
        C as nat
    }

    closed spec fn well_formed(self) -> bool {
        self.data@.len() == (R as nat) * (C as nat)
    }

    proof fn shape_size(self) {
    }

    fn len(&self) -> (n: usize) {
        self.data.len()
    }

    fn get(&self, i: usize) -> (e: T) {
        self.data[i]
    }

    fn set(&mut self, i: usize, e: T) {
        self.data.set(i, e);
    }
}

/// A heap-backed buffer for a shape with at least one run-time axis.
///
/// Alongside its elements it carries the two dimension descriptors it was
/// built for, so the shape is recoverable at run time. The buffer holds
/// exactly `nrows.count() * ncols.count()` element slots from construction
/// on.
pub struct MatrixVec<T, R: Dim, C: Dim> {
    nrows: R,
    ncols: C,
    data: Vec<T>,
}

impl<T, R: Dim, C: Dim> MatrixVec<T, R, C> {
    /// The stored row descriptor.
    pub closed spec fn nrows_spec(self) -> R {
        self.nrows
    }

    /// The stored column descriptor.
    pub closed spec fn ncols_spec(self) -> C {
        self.ncols
    }

    /// The row descriptor this buffer was built for.
    pub fn nrows(&self) -> (d: R)
        ensures
            d == self.nrows_spec(),
    {
        self.nrows
    }

    /// The column descriptor this buffer was built for.
    pub fn ncols(&self) -> (d: C)
        ensures
            d == self.ncols_spec(),
    {
        self.ncols
    }
}

impl<T: Copy, R: Dim, C: Dim> MatrixVec<T, R, C> {
    /// Wraps element storage of exactly `nrows.count() * ncols.count()` slots
    /// as a buffer carrying the two descriptors.
    pub fn new(nrows: R, ncols: C, data: Vec<T>) -> (buf: Self)
        requires
            data@.len() == nrows.count_spec() * ncols.count_spec(),
        ensures
            buf.well_formed(),
            buf.contents() == data@,
            buf.nrows_spec() == nrows,
            buf.ncols_spec() == ncols,
    {
        MatrixVec { nrows, ncols, data }
    }
}

impl<T: Copy, R: Dim, C: Dim> Storage<T> for MatrixVec<T, R, C> {
    closed spec fn contents(self) -> Seq<T> {
        self.data@
    }

    open spec fn nrows_count(self) -> nat {
        self.nrows_spec().count_spec()
    }

    open spec fn ncols_count(self) -> nat {
        self.ncols_spec().count_spec()
    }

    closed spec fn well_formed(self) -> bool {
        self.data@.len() == self.nrows.count_spec() * self.ncols.count_spec()
    }

    proof fn shape_size(self) {
    }

    fn len(&self) -> (n: usize) {
        self.data.len()
    }

    fn get(&self, i: usize) -> (e: T) {
        self.data[i]
    }

    fn set(&mut self, i: usize, e: T)
        ensures
            final(self).nrows_spec() == old(self).nrows_spec(),
            final(self).ncols_spec() == old(self).ncols_spec(),
    {
        self.data.set(i, e);
    }
}

} // verus!

//! Dimension descriptors for one matrix axis.
//!
//! An axis is either [`Static`], whose element count is a compile-time
//! constant baked into the type, or [`Dynamic`], which carries the count as a
//! run-time value fixed when the descriptor is constructed. Both kinds answer
//! through the common [`Dim`] capability.

use vstd::prelude::*;

verus! {

/// The capability every dimension descriptor offers: a non-negative element
/// count, fixed for the descriptor's lifetime.
pub trait Dim: Sized + Copy {
    /// The element count of this axis, as a mathematical value.
    spec fn count_spec(self) -> nat;

    /// The element count of this axis.
    fn count(&self) -> (n: usize)
        ensures
            n as nat == self.count_spec(),
    ;
}

/// An axis whose element count is the compile-time constant `N`.
///
/// A value of this type carries no run-time state: the count is recoverable
/// from the type alone.
#[derive(Clone, Copy)]
pub struct Static<const N: usize>;

impl<const N: usize> Dim for Static<N> {
    open spec fn count_spec(self) -> nat {
        N as nat
    }

    fn count(&self) -> (n: usize) {
        N
    }
}

/// An axis whose element count is known only at run time.
///
/// The count is set once, at construction, and never changes afterwards.
#[derive(Clone, Copy)]
pub struct Dynamic {
    count: usize,
}

impl Dynamic {
    /// Builds a descriptor for an axis of `count` elements.
    pub fn new(count: usize) -> (d: Dynamic)
        ensures
            d.count_spec() == count as nat,
    {
        Dynamic { count }
    }
}

impl Dim for Dynamic {
    closed spec fn count_spec(self) -> nat {
        self.count as nat
    }

    fn count(&self) -> (n: usize) {
        self.count
    }
}

} // verus!

//! Contiguous storage that an entity can be built on: an owned vector, or a shared or
//! mutable borrow of a slice.
use vstd::prelude::*;

use crate::numeric::UnsignedInteger;

verus! {

/// Read access to a contiguous run of elements.
pub trait Container {
    type Element: UnsignedInteger;

    /// The elements, in order.
    spec fn items(&self) -> Seq<Self::Element>;

    fn container_len(&self) -> (n: usize)
        ensures
            n == self.items().len(),
    ;

    fn as_slice(&self) -> (s: &[Self::Element])
        ensures
            s@ == self.items(),
    ;
}

/// Write access to a contiguous run of elements.
pub trait ContainerMut: Container {
    fn as_mut_slice(&mut self) -> (s: &mut [Self::Element])
        ensures
            s@ == old(self).items(),
            final(self).items() == (*final(s))@,
    ;
}

impl<T: UnsignedInteger> Container for Vec<T> {
    type Element = T;

    open spec fn items(&self) -> Seq<T> {
        self@
    }

    fn container_len(&self) -> (n: usize) {
        self.len()
    }

    fn as_slice(&self) -> (s: &[T]) {
        self.as_slice()
    }
}

impl<T: UnsignedInteger> ContainerMut for Vec<T> {
    fn as_mut_slice(&mut self) -> (s: &mut [T]) {
        self.as_mut_slice()
    }
}

impl<'a, T: UnsignedInteger> Container for &'a [T] {
    type Element = T;

    open spec fn items(&self) -> Seq<T> {
        (**self)@
    }

    fn container_len(&self) -> (n: usize) {
        self.len()
    }

    fn as_slice(&self) -> (s: &[T]) {
        *self
    }
}

impl<'a, T: UnsignedInteger> Container for &'a mut [T] {
    type Element = T;

    open spec fn items(&self) -> Seq<T> {
        (**self)@
    }

    fn container_len(&self) -> (n: usize) {
        self.len()
    }

    fn as_slice(&self) -> (s: &[T]) {
        &**self
    }
}

impl<'a, T: UnsignedInteger> ContainerMut for &'a mut [T] {
    fn as_mut_slice(&mut self) -> (s: &mut [T]) {
        &mut **self
    }
}

} // verus!

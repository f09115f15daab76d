//! Read access by position to the element storage of the containers.
use std::collections::VecDeque;
use vstd::prelude::*;

verus! {

/// A sequence of elements that can be read by position.
pub trait ElemSeq<T> {
    /// The elements, in order.
    spec fn elems(&self) -> Seq<T>;

    /// The number of elements.
    fn count(&self) -> (r: usize)
        ensures
            r == self.elems().len(),
    ;

    /// The element at position `i`.
    fn at(&self, i: usize) -> (r: &T)
        requires
            i < self.elems().len(),
        ensures
            *r == self.elems()[i as int],
    ;
}

impl<T> ElemSeq<T> for Vec<T> {
    open spec fn elems(&self) -> Seq<T> {
        self@
    }

    fn count(&self) -> (r: usize) {
        self.len()
    }

    fn at(&self, i: usize) -> (r: &T) {
        &self[i]
    }
}

impl<T> ElemSeq<T> for VecDeque<T> {
    open spec fn elems(&self) -> Seq<T> {
        self@
    }

    fn count(&self) -> (r: usize) {
        self.len()
    }

    fn at(&self, i: usize) -> (r: &T) {
        &self[i]
    }
}

} // verus!

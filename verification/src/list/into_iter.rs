//! Iterators over the elements of a list.
use std::alloc::System as SysAlloc;
use std::collections::VecDeque;
use vstd::prelude::*;

use crate::iterate::next_step;

verus! {

/// Hands out the elements of a list in order, by value.
pub struct IntoIter<T, A = SysAlloc> {
    alloc: A,
    list: VecDeque<T>,
    size: usize,
}

impl<T, A> View for IntoIter<T, A> {
    type V = Seq<T>;

    /// The elements still to come, in order.
    closed spec fn view(&self) -> Seq<T> {
        self.list@
    }
}

impl<T, A> IntoIter<T, A> {
    /// The allocator handle of the list the elements came from.
    pub closed spec fn alloc_spec(&self) -> A {
        self.alloc
    }

    /// How many elements the list held when the iterator was made.
    pub closed spec fn start_len(&self) -> nat {
        self.size as nat
    }

    pub(crate) fn new(alloc: A, list: VecDeque<T>) -> (r: Self)
        ensures
            r@ == list@,
            r.alloc_spec() == alloc,
            r.start_len() == list@.len(),
    {
        let size = list.len();
        IntoIter { alloc, list, size }
    }

    /// The allocator handle.
    pub fn allocator(&self) -> (r: &A)
        ensures
            *r == self.alloc_spec(),
    {
        &self.alloc
    }

    /// The next element, if any remains.
    pub fn next(&mut self) -> (r: Option<T>)
        ensures
            (final(self)@, r) == next_step(old(self)@),
            final(self).start_len() == old(self).start_len(),
            final(self).alloc_spec() == old(self).alloc_spec(),
    {
        self.list.pop_front()
    }

    /// The number of elements the list held when the iterator was made, as both bounds;
    /// it stays the same as elements are handed out.
    pub fn size_hint(&self) -> (r: (usize, Option<usize>))
        ensures
            r.0 == self.start_len(),
            r.1 == Some(self.start_len() as usize),
    {
        (self.size, Some(self.size))
    }
}

/// Borrows the elements of a list in order.
pub struct Iter<'a, T> {
    list: &'a VecDeque<T>,
    pos: usize,
}

impl<'a, T> View for Iter<'a, T> {
    type V = Seq<T>;

    /// The elements still to come, in order.
    closed spec fn view(&self) -> Seq<T> {
        self.list@.skip(self.pos as int)
    }
}

impl<'a, T> Iter<'a, T> {
    /// The position lies within the list.
    #[verifier::type_invariant]
    spec fn inv(self) -> bool {
        self.pos <= self.list@.len()
    }

    pub(crate) fn new(list: &'a VecDeque<T>) -> (r: Self)
        ensures
            r@ == list@,
    {
        let r = Iter { list, pos: 0 };
        proof {
            assert(r@ =~= list@);
        }
        r
    }

    /// The next element, if any remains.
    pub fn next(&mut self) -> (r: Option<&'a T>)
        ensures
            final(self)@ == next_step(old(self)@).0,
            r matches Some(x) ==> next_step(old(self)@).1 == Some(*x),
            r is None <==> next_step(old(self)@).1 is None,
    {
        proof {
            use_type_invariant(&*self);
        }
        if self.pos < self.list.len() {
            let x = &self.list[self.pos];
            self.pos = self.pos + 1;
            proof {
                assert(self@ =~= old(self)@.drop_first());
            }
            Some(x)
        } else {
            None
        }
    }
}

} // verus!

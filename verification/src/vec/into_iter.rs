//! The owning iterator of a vector.
use vstd::prelude::*;

use crate::iterate::next_step;

verus! {

/// Hands out the elements of a vector in order, by value. The elements still to come are
/// held in reverse, so that the next one sits at the end.
pub struct IntoIter<T, A> {
    alloc: A,
    rest: Vec<T>,
}

impl<T, A> View for IntoIter<T, A> {
    type V = Seq<T>;

    /// The elements still to come, in order.
    closed spec fn view(&self) -> Seq<T> {
        self.rest@.reverse()
    }
}

impl<T, A> IntoIter<T, A> {
    /// The allocator handle of the vector the elements came from.
    pub closed spec fn alloc_spec(&self) -> A {
        self.alloc
    }

    /// An iterator over the elements of `vals`, in order.
    pub(crate) fn new(alloc: A, vals: Vec<T>) -> (r: Self)
        ensures
            r@ == vals@,
            r.alloc_spec() == alloc,
    {
        let mut vals = vals;
        let mut rest: Vec<T> = Vec::new();
        let ghost all = vals@;
        while vals.len() > 0
            invariant
                all == vals@ + rest@.reverse(),
            decreases vals@.len(),
        {
            let x = vals.pop().unwrap();
            proof {
                assert(rest@.push(x).reverse() =~= seq![x] + rest@.reverse());
                assert(all =~= vals@ + rest@.push(x).reverse());
            }
            rest.push(x);
        }
        proof {
            assert(all =~= rest@.reverse());
        }
        IntoIter { alloc, rest }
    }

    /// The allocator handle.
    pub fn allocator(&self) -> (r: &A)
        ensures
            *r == self.alloc_spec(),
    {
        &self.alloc
    }

    /// The next element, if any remains.
    pub fn next(&mut self) -> (r: Option<T>)
        ensures
            (final(self)@, r) == next_step(old(self)@),
            final(self).alloc_spec() == old(self).alloc_spec(),
    {
        let r = self.rest.pop();
        proof {
            if old(self).rest@.len() > 0 {
                assert(old(self)@ =~= seq![old(self).rest@.last()] + self@);
            }
        }
        r
    }

    /// The number of elements still to come, as both bounds.
    pub fn size_hint(&self) -> (r: (usize, Option<usize>))
        ensures
            r.0 == self@.len(),
            r.1 == Some(self@.len() as usize),
    {
        let n = self.rest.len();
        (n, Some(n))
    }
}

} // verus!

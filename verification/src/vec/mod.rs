//! A growable array with the contract of the C++ `std::vector`.
//!
//! A vector is a sequence of elements together with an allocator handle and a
//! reserved capacity. Operations that would take the vector past
//! `max_len::<T>()` elements leave it unchanged. A request for a size, as in `resize`,
//! or for a capacity, as in `reserve`, is refused already when it reaches the limit,
//! since the storage such a request names must stay below the limit; `push` and
//! `insert` refuse only once the vector is at the limit. When it runs out of room, the
//! capacity doubles.
//!
//! Most operations that read the length leave out element types of size zero.
use std::alloc::System as SysAlloc;
use vstd::prelude::*;

use crate::lexico::{equal_elems, seq_eq, seqs_equal, seqs_lex};
use crate::limits::{max_len, max_len_of};
use vstd::layout::size_of;
use crate::order::{
    ordered_elems, outcome_order, outcome_to_order, seq_lex, seq_total, seqs_total, totally_ordered_elems,
};
use core::cmp::Ordering;
use vstd::std_specs::cmp::{PartialEqSpecImpl, PartialOrdSpecImpl};

pub mod into_iter;
pub mod laws;

use into_iter::IntoIter;

verus! {

/// A vector that carries the system allocator's handle unless told otherwise.
pub type CxxVec<T, A = SysAlloc> = CxxVecLayout<T, A>;

/// The elements after pushing `x` onto a vector holding `s`.
pub open spec fn push_result<T>(s: Seq<T>, x: T) -> Seq<T> {
    if s.len() < max_len::<T>() {
        s.push(x)
    } else {
        s
    }
}

/// The elements after popping from a vector holding `s`, and the element popped.
pub open spec fn pop_result<T>(s: Seq<T>) -> (Seq<T>, Option<T>) {
    if s.len() == 0 {
        (s, None)
    } else {
        (s.drop_last(), Some(s.last()))
    }
}

/// The elements after inserting `x` before position `i` of a vector holding `s`.
pub open spec fn insert_result<T>(s: Seq<T>, i: int, x: T) -> Seq<T> {
    if s.len() < max_len::<T>() {
        s.insert(i, x)
    } else {
        s
    }
}

/// The elements after removing position `i` of a vector holding `s`, and the element removed.
pub open spec fn remove_result<T>(s: Seq<T>, i: int) -> (Seq<T>, T) {
    (s.remove(i), s[i])
}

/// The elements after truncating a vector holding `s` to `n` elements.
pub open spec fn truncate_result<T>(s: Seq<T>, n: int) -> Seq<T> {
    if n < s.len() {
        s.take(n)
    } else {
        s
    }
}

/// The capacity a vector of capacity `cap` grows to when it needs room for `needed`
/// elements: twice as much, or `needed` where that is not enough, or the element limit
/// where twice as much would pass it.
pub open spec fn growth<T>(cap: nat, needed: nat) -> nat {
    if cap > max_len::<T>() - cap {
        max_len::<T>()
    } else if cap + cap < needed {
        needed
    } else {
        cap + cap
    }
}

/// The capacity after adding one element to a vector of length `len` and capacity `cap`.
pub open spec fn grown_capacity<T>(len: nat, cap: nat) -> nat {
    if len < cap {
        cap
    } else {
        growth::<T>(cap, len + 1)
    }
}

/// Computes `growth::<T>(cap, needed)`.
fn growth_of<T>(cap: usize, needed: usize) -> (r: usize)
    requires
        cap <= max_len::<T>(),
        needed <= max_len::<T>(),
    ensures
        r == growth::<T>(cap as nat, needed as nat),
        cap <= r,
        needed <= r <= max_len::<T>(),
{
    let max = max_len_of::<T>();
    if cap > max - cap {
        max
    } else if cap + cap < needed {
        needed
    } else {
        cap + cap
    }
}

/// Storage of a vector: its allocator handle, its elements and the capacity it has reserved.
pub struct Layout<T, A> {
    alloc: A,
    val: Vec<T>,
    cap: usize,
}

impl<T, A> Layout<T, A> {
    /// No more elements than reserved, and no more reserved than the element limit.
    #[verifier::type_invariant]
    spec fn inv(self) -> bool {
        self.val@.len() <= self.cap <= max_len::<T>()
    }

    /// The elements held.
    pub closed spec fn elems(self) -> Seq<T> {
        self.val@
    }

    /// The capacity reserved.
    pub closed spec fn reserved(self) -> nat {
        self.cap as nat
    }

    /// The allocator handle.
    pub closed spec fn alloc_spec(self) -> A {
        self.alloc
    }

    /// An empty storage that carries the allocator handle `alloc`.
    pub fn new_in(alloc: A) -> (r: Self)
        ensures
            r.elems() == Seq::<T>::empty(),
            r.reserved() == 0,
            r.alloc_spec() == alloc,
    {
        Layout { alloc, val: Vec::new(), cap: 0 }
    }

    /// Takes the elements out, leaving none behind; the capacity stays.
    fn take_val(&mut self) -> (r: Vec<T>)
        ensures
            r@ == old(self).val@,
            r@.len() <= old(self).cap <= max_len::<T>(),
            final(self).val@ == Seq::<T>::empty(),
            final(self).cap == old(self).cap,
            final(self).alloc == old(self).alloc,
    {
        proof {
            use_type_invariant(&*self);
        }
        let mut val: Vec<T> = Vec::new();
        core::mem::swap(&mut val, &mut self.val);
        val
    }

    /// Puts `val` in place of no elements, with capacity `cap`.
    fn put_val(&mut self, val: Vec<T>, cap: usize)
        requires
            old(self).val@.len() == 0,
            val@.len() <= cap <= max_len::<T>(),
        ensures
            final(self).val@ == val@,
            final(self).cap == cap,
            final(self).alloc == old(self).alloc,
    {
        self.cap = cap;
        self.val = val;
    }
}

/// A vector of `T` whose storage is described by a `Layout` with allocator `A`.
pub struct CxxVecLayout<T, A> {
    inner: Layout<T, A>,
}

impl<T, A> View for CxxVecLayout<T, A> {
    type V = Seq<T>;

    closed spec fn view(&self) -> Seq<T> {
        self.inner.val@
    }
}

impl<T> CxxVecLayout<T, SysAlloc> {
    /// An empty vector carrying the system allocator's handle.
    pub fn new() -> (r: Self)
        ensures
            r@ == Seq::<T>::empty(),
            r.capacity_spec() == 0,
    {
        CxxVecLayout { inner: Layout::new_in(SysAlloc::default()) }
    }
}

impl<T, A> CxxVecLayout<T, A> {
    /// The capacity the vector has reserved.
    pub closed spec fn capacity_spec(&self) -> nat {
        self.inner.cap as nat
    }

    /// The allocator handle of the vector.
    pub closed spec fn alloc_spec(&self) -> A {
        self.inner.alloc
    }

    /// An empty vector that carries the allocator handle `alloc`.
    pub fn new_in(alloc: A) -> (r: Self)
        ensures
            r@ == Seq::<T>::empty(),
            r.capacity_spec() == 0,
            r.alloc_spec() == alloc,
    {
        CxxVecLayout { inner: Layout::new_in(alloc) }
    }

    fn from_alloc(alloc: A) -> (r: Self)
        ensures
            r@ == Seq::<T>::empty(),
            r.capacity_spec() == 0,
            r.alloc_spec() == alloc,
    {
        CxxVecLayout { inner: Layout::new_in(alloc) }
    }

    /// The allocator handle.
    pub fn allocator(&self) -> (r: &A)
        ensures
            *r == self.alloc_spec(),
    {
        &self.inner.alloc
    }

    /// The elements of `vec`, with the capacity reserved for them, moved into a vector that
    /// carries the allocator handle `alloc`.
    pub fn from_vec_in<A2>(vec: CxxVecLayout<T, A2>, alloc: A) -> (r: Self)
        ensures
            r@ == vec@,
            r.capacity_spec() == vec.capacity_spec(),
            r.alloc_spec() == alloc,
    {
        proof {
            use_type_invariant(&vec.inner);
        }
        let CxxVecLayout { inner } = vec;
        let Layout { alloc: _, val, cap } = inner;
        CxxVecLayout { inner: Layout { alloc, val, cap } }
    }

    /// The elements of the vector, with the capacity reserved for them, moved into a vector
    /// that carries the allocator handle `alloc`.
    pub fn into_vec_in<A2>(self, alloc: A2) -> (r: CxxVecLayout<T, A2>)
        ensures
            r@ == self@,
            r.capacity_spec() == self.capacity_spec(),
            r.alloc_spec() == alloc,
    {
        CxxVecLayout::from_vec_in(self, alloc)
    }

    /// The elements of `vec` in a vector that carries the allocator handle `alloc`; empty when `vec`
    /// is longer than the element limit.
    pub fn from_rust_vec_in(vec: Vec<T>, alloc: A) -> (r: Self)
        ensures
            vec@.len() <= max_len::<T>() ==> r@ == vec@ && r.capacity_spec() == vec@.len(),
            vec@.len() > max_len::<T>() ==> r@ == Seq::<T>::empty() && r.capacity_spec() == 0,
            r.alloc_spec() == alloc,
    {
        let new = Self::from_alloc(alloc);
        let len = vec.len();
        if len <= max_len_of::<T>() {
            let CxxVecLayout { inner } = new;
            let Layout { alloc, val: _, cap: _ } = inner;
            CxxVecLayout { inner: Layout { alloc, val: vec, cap: len } }
        } else {
            new
        }
    }

    /// The elements of the vector as a `Vec`.
    pub fn into_rust_vec(self) -> (r: Vec<T>)
        requires
            size_of::<T>() > 0,
        ensures
            r@ == self@,
    {
        let CxxVecLayout { inner } = self;
        let Layout { alloc: _, val, cap: _ } = inner;
        val
    }

    /// The elements, as a slice.
    pub fn as_slice(&self) -> (r: &[T])
        requires
            size_of::<T>() > 0,
        ensures
            r@ == self@,
    {
        self.elems_ref()
    }

    fn elems_ref(&self) -> (r: &[T])
        ensures
            r@ == self@,
    {
        self.inner.val.as_slice()
    }

    fn elems_mut(&mut self) -> (r: &mut [T])
        ensures
            r@ == old(self)@,
            final(self)@ == final(r)@,
            final(self).capacity_spec() == old(self).capacity_spec(),
            final(self).alloc_spec() == old(self).alloc_spec(),
    {
        proof {
            use_type_invariant(&self.inner);
        }
        vec_as_mut_slice(&mut self.inner.val)
    }

    /// The elements, as a mutable slice; writes through it land in the vector.
    pub fn as_mut_slice(&mut self) -> (r: &mut [T])
        requires
            size_of::<T>() > 0,
        ensures
            r@ == old(self)@,
            final(self)@ == final(r)@,
            final(self).capacity_spec() == old(self).capacity_spec(),
            final(self).alloc_spec() == old(self).alloc_spec(),
    {
        self.elems_mut()
    }

    /// The number of elements.
    pub fn len(&self) -> (r: usize)
        requires
            size_of::<T>() > 0,
        ensures
            r == self@.len(),
    {
        self.inner.val.len()
    }

    /// Whether the vector holds no element.
    pub fn is_empty(&self) -> (r: bool)
        ensures
            r == (self@.len() == 0),
    {
        self.inner.val.len() == 0
    }

    /// The capacity reserved.
    pub fn capacity(&self) -> (r: usize)
        requires
            size_of::<T>() > 0,
        ensures
            r == self.capacity_spec(),
            self@.len() <= r <= max_len::<T>(),
    {
        proof {
            use_type_invariant(&self.inner);
        }
        self.inner.cap
    }

    /// Appends `value`; no effect when the vector is at the element limit.
    pub fn push(&mut self, value: T)
        ensures
            final(self)@ == push_result(old(self)@, value),
            old(self)@.len() < max_len::<T>() ==> final(self).capacity_spec() == grown_capacity::<T>(
                old(self)@.len(),
                old(self).capacity_spec(),
            ),
            old(self)@.len() >= max_len::<T>() ==> final(self).capacity_spec()
                == old(self).capacity_spec(),
            final(self).alloc_spec() == old(self).alloc_spec(),
    {
        proof {
            use_type_invariant(&self.inner);
        }
        let len = self.inner.val.len();
        if len < max_len_of::<T>() {
            let cap = self.inner.cap;
            let mut val = self.inner.take_val();
            let cap = if len == cap {
                let grown = growth_of::<T>(cap, len + 1);
                val.reserve(grown - len);
                grown
            } else {
                cap
            };
            val.push(value);
            self.inner.put_val(val, cap);
        }
    }

    /// Removes and returns the last element, if any.
    pub fn pop(&mut self) -> (r: Option<T>)
        ensures
            (final(self)@, r) == pop_result(old(self)@),
            final(self).capacity_spec() == old(self).capacity_spec(),
            final(self).alloc_spec() == old(self).alloc_spec(),
    {
        if !self.is_empty() {
            let cap = self.inner.cap;
            let mut val = self.inner.take_val();
            let r = val.pop();
            self.inner.put_val(val, cap);
            r
        } else {
            None
        }
    }

    /// Inserts `value` before position `index`; no effect when the vector is at the
    /// element limit.
    pub fn insert(&mut self, index: usize, value: T)
        requires
            size_of::<T>() > 0,
            index <= old(self)@.len(),
        ensures
            final(self)@ == insert_result(old(self)@, index as int, value),
            old(self)@.len() < max_len::<T>() ==> final(self).capacity_spec() == grown_capacity::<T>(
                old(self)@.len(),
                old(self).capacity_spec(),
            ),
            old(self)@.len() >= max_len::<T>() ==> final(self).capacity_spec()
                == old(self).capacity_spec(),
            final(self).alloc_spec() == old(self).alloc_spec(),
    {
        proof {
            use_type_invariant(&self.inner);
        }
        let len = self.inner.val.len();
        if len < max_len_of::<T>() {
            let cap = self.inner.cap;
            let mut val = self.inner.take_val();
            let cap = if len == cap {
                let grown = growth_of::<T>(cap, len + 1);
                val.reserve(grown - len);
                grown
            } else {
                cap
            };
            val.insert(index, value);
            self.inner.put_val(val, cap);
        }
    }

    /// Removes and returns the element at position `index`.
    pub fn remove(&mut self, index: usize) -> (r: T)
        requires
            size_of::<T>() > 0,
            index < old(self)@.len(),
        ensures
            (final(self)@, r) == remove_result(old(self)@, index as int),
            final(self).capacity_spec() == old(self).capacity_spec(),
            final(self).alloc_spec() == old(self).alloc_spec(),
    {
        let cap = self.inner.cap;
        let mut val = self.inner.take_val();
        let r = val.remove(index);
        self.inner.put_val(val, cap);
        r
    }

    /// Removes every element, keeping the capacity.
    pub fn clear(&mut self)
        ensures
            final(self)@ == Seq::<T>::empty(),
            final(self).capacity_spec() == old(self).capacity_spec(),
            final(self).alloc_spec() == old(self).alloc_spec(),
    {
        let cap = self.inner.cap;
        let mut val = self.inner.take_val();
        val.clear();
        self.inner.put_val(val, cap);
    }

    /// Keeps the first `new_len` elements; no effect when there are no more than that.
    pub fn truncate(&mut self, new_len: usize)
        requires
            size_of::<T>() > 0,
        ensures
            final(self)@ == truncate_result(old(self)@, new_len as int),
            final(self).capacity_spec() == old(self).capacity_spec(),
            final(self).alloc_spec() == old(self).alloc_spec(),
    {
        if new_len < self.len() {
            let cap = self.inner.cap;
            let mut val = self.inner.take_val();
            val.truncate(new_len);
            self.inner.put_val(val, cap);
        }
    }

    /// The elements of `slice`, cloned into a vector that carries the allocator handle `alloc`; empty
    /// when `slice` is longer than the element limit.
    pub fn from_slice_in(slice: &[T], alloc: A) -> (r: Self) where T: Clone
        requires
            size_of::<T>() > 0,
            slice@.len() <= isize::MAX,
        ensures
            slice@.len() <= max_len::<T>() ==> {
                &&& r@.len() == slice@.len()
                &&& forall|i: int| 0 <= i < slice@.len() ==> cloned::<T>(slice@[i], #[trigger] r@[i])
                &&& r.capacity_spec() == slice@.len()
            },
            slice@.len() > max_len::<T>() ==> r@ == Seq::<T>::empty() && r.capacity_spec() == 0,
            r.alloc_spec() == alloc,
    {
        let mut new = Self::from_alloc(alloc);
        new.reserve(slice.len());
        let len = slice.len();
        if len <= max_len_of::<T>() {
            let cap = new.inner.cap;
            let mut val = new.inner.take_val();
            let cap = if len > cap {
                let grown = growth_of::<T>(cap, len);
                val.reserve(grown);
                grown
            } else {
                cap
            };
            val.extend_from_slice(slice);
            new.inner.put_val(val, cap);
        }
        new
    }

    /// Resizes to `new_len` elements, filling with clones of `value` or dropping the tail;
    /// growing has no effect when `new_len` reaches the element limit.
    pub fn resize(&mut self, new_len: usize, value: T) where T: Clone
        requires
            size_of::<T>() > 0,
            new_len <= isize::MAX,
        ensures
            new_len <= old(self)@.len() ==> final(self)@ == old(self)@.take(new_len as int)
                && final(self).capacity_spec() == old(self).capacity_spec(),
            old(self)@.len() < new_len < max_len::<T>() ==> {
                &&& final(self)@.len() == new_len
                &&& final(self)@.take(old(self)@.len() as int) == old(self)@
                &&& forall|i: int| old(self)@.len() <= i < new_len ==> cloned::<T>(value, #[trigger] final(self)@[i])
                &&& final(self).capacity_spec() == if new_len <= old(self).capacity_spec() {
                    old(self).capacity_spec()
                } else {
                    growth::<T>(old(self).capacity_spec(), new_len as nat)
                }
            },
            old(self)@.len() < new_len && new_len >= max_len::<T>() ==> final(self)@ == old(self)@
                && final(self).capacity_spec() == old(self).capacity_spec(),
            final(self).alloc_spec() == old(self).alloc_spec(),
    {
        proof {
            use_type_invariant(&self.inner);
        }
        let len = self.len();
        if new_len > len {
            if new_len < max_len_of::<T>() {
                let cap = self.inner.cap;
                let mut val = self.inner.take_val();
                let cap = if new_len > cap {
                    let grown = growth_of::<T>(cap, new_len);
                    val.reserve(grown - len);
                    grown
                } else {
                    cap
                };
                val.resize(new_len, value);
                self.inner.put_val(val, cap);
            }
        } else {
            self.truncate(new_len);
        }
    }

    /// Resizes to `new_len` elements, filling with values returned by `f` or dropping the
    /// tail; the vector stops growing at the element limit.
    pub fn resize_with<F>(&mut self, new_len: usize, mut f: F) where F: FnMut() -> T
        requires
            size_of::<T>() > 0,
            new_len > old(self)@.len() ==> old(self).capacity_spec() + (new_len - old(self)@.len()) <= isize::MAX,
            call_requires(f, ()),
        ensures
            new_len <= old(self)@.len() ==> final(self)@ == old(self)@.take(new_len as int)
                && final(self).capacity_spec() == old(self).capacity_spec(),
            new_len > old(self)@.len() ==> {
                &&& final(self)@.len() == if new_len <= max_len::<T>() { new_len as nat } else { max_len::<T>() }
                &&& final(self)@.take(old(self)@.len() as int) == old(self)@
                &&& forall|i: int| old(self)@.len() <= i < final(self)@.len() ==> call_ensures(f, (), #[trigger] final(self)@[i])
            },
            final(self).alloc_spec() == old(self).alloc_spec(),
    {
        proof {
            use_type_invariant(&self.inner);
        }
        let len = self.len();
        if new_len > len {
            let additional = new_len - len;
            self.reserve(additional);
            let mut i: usize = 0;
            let ghost f0 = f;
            while i < additional
                invariant
                    f == f0,
                    0 <= i <= additional,
                    additional == new_len - len,
                    len == old(self)@.len(),
                    self@.len() == if len + i <= max_len::<T>() { (len + i) as nat } else { max_len::<T>() },
                    self@.take(len as int) == old(self)@,
                    forall|j: int| len <= j < self@.len() ==> call_ensures(f, (), #[trigger] self@[j]),
                    call_requires(f, ()),
                    self.alloc_spec() == old(self).alloc_spec(),
                decreases additional - i,
            {
                let value = f();
                self.push(value);
                i = i + 1;
            }
        } else {
            self.truncate(new_len);
        }
    }

    /// Reserves room for exactly `additional` more elements than the current capacity; no
    /// effect when that reaches the element limit.
    pub fn reserve(&mut self, additional: usize)
        requires
            size_of::<T>() > 0,
            old(self).capacity_spec() + additional <= isize::MAX,
        ensures
            final(self)@ == old(self)@,
            old(self).capacity_spec() + additional < max_len::<T>() ==> final(self).capacity_spec()
                == old(self).capacity_spec() + additional,
            old(self).capacity_spec() + additional >= max_len::<T>() ==> final(self).capacity_spec()
                == old(self).capacity_spec(),
            final(self).alloc_spec() == old(self).alloc_spec(),
    {
        let capacity = self.capacity();
        let new_capacity = capacity + additional;
        if new_capacity < max_len_of::<T>() && new_capacity > capacity {
            let len = self.inner.val.len();
            let mut val = self.inner.take_val();
            val.reserve(new_capacity - len);
            self.inner.put_val(val, new_capacity);
        }
    }

    /// Releases the capacity beyond the current length.
    pub fn shrink_to_fit(&mut self)
        ensures
            final(self)@ == old(self)@,
            final(self).capacity_spec() == old(self)@.len(),
            final(self).alloc_spec() == old(self).alloc_spec(),
    {
        let len = self.inner.val.len();
        let mut val = self.inner.take_val();
        vec_shrink_to_fit(&mut val);
        self.inner.put_val(val, len);
    }
}

impl<T, A> CxxVecLayout<T, A> {
    /// Hands the elements out one by one, in order, by value.
    pub fn into_iter(self) -> (r: IntoIter<T, A>)
        requires
            size_of::<T>() > 0,
        ensures
            r@ == self@,
            r.alloc_spec() == self.alloc_spec(),
    {
        let CxxVecLayout { inner } = self;
        let Layout { alloc, val, cap: _ } = inner;
        IntoIter::new(alloc, val)
    }
}

impl<T: Clone, A: Clone> Clone for CxxVecLayout<T, A> {
    /// A vector of clones of the elements, with a clone of the allocator handle and a
    /// capacity equal to the length.
    fn clone(&self) -> (r: Self)
        ensures
            r@.len() == self@.len(),
            forall|i: int| 0 <= i < self@.len() ==> cloned::<T>(self@[i], #[trigger] r@[i]),
            r.capacity_spec() == self@.len(),
            cloned::<A>(self.alloc_spec(), r.alloc_spec()),
    {
        proof {
            use_type_invariant(&self.inner);
        }
        let alloc = self.inner.alloc.clone();
        let mut val: Vec<T> = Vec::new();
        val.extend_from_slice(self.inner.val.as_slice());
        let cap = val.len();
        CxxVecLayout { inner: Layout { alloc, val, cap } }
    }
}

impl<T, A: Default> Default for CxxVecLayout<T, A> {
    /// An empty vector with the default allocator handle.
    fn default() -> (r: Self)
        ensures
            r@ == Seq::<T>::empty(),
            r.capacity_spec() == 0,
            call_ensures(A::default, (), r.alloc_spec()),
    {
        Self::from_alloc(A::default())
    }
}

impl<T, A> core::ops::Deref for CxxVecLayout<T, A> {
    type Target = [T];

    /// The elements, as a slice.
    fn deref(&self) -> (r: &[T])
        ensures
            r@ == self@,
    {
        self.elems_ref()
    }
}

impl<T, A> core::ops::DerefMut for CxxVecLayout<T, A> {
    /// The elements, as a mutable slice.
    fn deref_mut(&mut self) -> (r: &mut [T])
        ensures
            r@ == old(self)@,
            final(self)@ == final(r)@,
            final(self).capacity_spec() == old(self).capacity_spec(),
            final(self).alloc_spec() == old(self).alloc_spec(),
    {
        self.elems_mut()
    }
}

impl<T, A> AsRef<[T]> for CxxVecLayout<T, A> {
    /// The elements, as a slice.
    fn as_ref(&self) -> (r: &[T])
        ensures
            r@ == self@,
    {
        self.elems_ref()
    }
}

impl<T, A> AsMut<[T]> for CxxVecLayout<T, A> {
    /// The elements, as a mutable slice.
    fn as_mut(&mut self) -> (r: &mut [T])
        ensures
            r@ == old(self)@,
            final(self)@ == final(r)@,
            final(self).capacity_spec() == old(self).capacity_spec(),
            final(self).alloc_spec() == old(self).alloc_spec(),
    {
        self.elems_mut()
    }
}

impl<T: Ord, A> CxxVecLayout<T, A> {
    /// Lexicographic comparison of the elements under their total order.
    pub fn cmp(&self, other: &Self) -> (r: Ordering)
        requires
            size_of::<T>() > 0,
        ensures
            totally_ordered_elems::<T>() ==> r == seq_total(self@, other@),
    {
        seqs_total(&self.inner.val, &other.inner.val)
    }
}

/// The elements a slice holds.
pub open spec fn slice_elems<T>(s: &[T]) -> Seq<T> {
    s@
}

impl<T, A> core::borrow::Borrow<[T]> for CxxVecLayout<T, A> {
    /// The elements, as a slice.
    fn borrow(&self) -> (r: &[T])
        ensures
            slice_elems::<T>(r) == self@,
    {
        self.elems_ref()
    }
}

impl<T, A> core::borrow::BorrowMut<[T]> for CxxVecLayout<T, A> {
    /// The elements, as a mutable slice.
    fn borrow_mut(&mut self) -> (r: &mut [T])
        ensures
            slice_elems::<T>(r) == old(self)@,
            final(self)@ == slice_elems::<T>(final(r)),
            final(self).capacity_spec() == old(self).capacity_spec(),
            final(self).alloc_spec() == old(self).alloc_spec(),
    {
        self.elems_mut()
    }
}

impl<T: PartialEq, A1, A2> PartialEq<CxxVecLayout<T, A2>> for CxxVecLayout<T, A1> {
    /// Equal when as long and equal position by position.
    fn eq(&self, other: &CxxVecLayout<T, A2>) -> (r: bool) {
        seqs_equal(&self.inner.val, &other.inner.val)
    }
}

impl<T: PartialEq, A1, A2> PartialEqSpecImpl<CxxVecLayout<T, A2>> for CxxVecLayout<T, A1> {
    open spec fn obeys_eq_spec() -> bool {
        equal_elems::<T>()
    }

    open spec fn eq_spec(&self, other: &CxxVecLayout<T, A2>) -> bool {
        seq_eq(self@, other@)
    }
}

impl<T: Eq, A> Eq for CxxVecLayout<T, A> {

}

impl<T: PartialOrd, A1, A2> PartialOrd<CxxVecLayout<T, A2>> for CxxVecLayout<T, A1> {
    /// Lexicographic comparison of the elements.
    fn partial_cmp(&self, other: &CxxVecLayout<T, A2>) -> (r: Option<Ordering>) {
        outcome_to_order(seqs_lex(&self.inner.val, &other.inner.val))
    }
}

impl<T: PartialOrd, A1, A2> PartialOrdSpecImpl<CxxVecLayout<T, A2>> for CxxVecLayout<T, A1> {
    open spec fn obeys_partial_cmp_spec() -> bool {
        ordered_elems::<T>()
    }

    open spec fn partial_cmp_spec(&self, other: &CxxVecLayout<T, A2>) -> Option<Ordering> {
        outcome_order(seq_lex(self@, other@))
    }
}

/// Calls `Vec::as_mut_slice`, which does not panic: a mutable slice over the elements, whose
/// final contents become the elements of the vector.
#[verifier::external_body]
fn vec_as_mut_slice<T>(v: &mut Vec<T>) -> (r: &mut [T])
    ensures
        r@ == old(v)@,
        final(v)@ == final(r)@,
        final(v)@.len() == old(v)@.len(),
    no_unwind
{
    v.as_mut_slice()
}

/// Calls `Vec::shrink_to_fit`, which frees unused capacity and leaves the elements as they are.
#[verifier::external_body]
fn vec_shrink_to_fit<T>(v: &mut Vec<T>)
    ensures
        final(v)@ == old(v)@,
{
    v.shrink_to_fit()
}

} // verus!

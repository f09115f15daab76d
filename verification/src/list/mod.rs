//! A sequence with the contract of the C++ `std::list`: cheap at both ends.
//!
//! A list is a sequence of elements, kept in a double-ended queue, together with an
//! allocator handle. Operations that would take the list past `max_len::<T>()` elements
//! leave it unchanged. `pop_front` and `pop_back` take the element out without running
//! its destructor.
use core::cmp::Ordering;
use std::alloc::System as SysAlloc;
use std::collections::VecDeque;
use vstd::prelude::*;
use vstd::std_specs::cmp::{PartialEqSpecImpl, PartialOrdSpecImpl};

use crate::lexico::{seqs_equal, seqs_lex, equal_elems, seq_eq};
use crate::limits::{max_len, max_len_of};
use crate::order::{
    ordered_elems, outcome_order, outcome_to_order, seq_lex, seq_total, seqs_total, totally_ordered_elems,
};

pub mod into_iter;
pub mod laws;

use into_iter::{IntoIter, Iter};

verus! {

/// A list that carries the system allocator's handle unless told otherwise.
pub type CxxList<T, A = SysAlloc> = CxxListLayout<T, A>;

/// The elements after putting `x` in front of a list holding `s`.
pub open spec fn push_front_result<T>(s: Seq<T>, x: T) -> Seq<T> {
    if s.len() < max_len::<T>() {
        seq![x] + s
    } else {
        s
    }
}

/// The elements after putting `x` at the back of a list holding `s`.
pub open spec fn push_back_result<T>(s: Seq<T>, x: T) -> Seq<T> {
    if s.len() < max_len::<T>() {
        s.push(x)
    } else {
        s
    }
}

/// The elements after dropping the first element of a list holding `s`.
pub open spec fn pop_front_result<T>(s: Seq<T>) -> Seq<T> {
    if s.len() == 0 {
        s
    } else {
        s.drop_first()
    }
}

/// The elements after dropping the last element of a list holding `s`.
pub open spec fn pop_back_result<T>(s: Seq<T>) -> Seq<T> {
    if s.len() == 0 {
        s
    } else {
        s.drop_last()
    }
}

/// The first element of a list holding `s`, if any.
pub open spec fn front_of<T>(s: Seq<T>) -> Option<T> {
    if s.len() == 0 {
        None
    } else {
        Some(s[0])
    }
}

/// The last element of a list holding `s`, if any.
pub open spec fn back_of<T>(s: Seq<T>) -> Option<T> {
    if s.len() == 0 {
        None
    } else {
        Some(s.last())
    }
}

/// Storage of a list: its allocator handle and its elements.
pub struct Layout<T, A> {
    alloc: A,
    val: VecDeque<T>,
}

impl<T, A> Layout<T, A> {
    /// No more elements than the element limit.
    #[verifier::type_invariant]
    spec fn inv(self) -> bool {
        self.val@.len() <= max_len::<T>()
    }

    /// The elements held.
    pub closed spec fn elems(self) -> Seq<T> {
        self.val@
    }

    /// The allocator handle.
    pub closed spec fn alloc_spec(self) -> A {
        self.alloc
    }

    /// An empty storage that carries the allocator handle `alloc`.
    pub fn new_in(alloc: A) -> (r: Self)
        ensures
            r.elems() == Seq::<T>::empty(),
            r.alloc_spec() == alloc,
    {
        Layout { alloc, val: VecDeque::new() }
    }

    /// Takes the elements out, leaving none behind.
    fn take_val(&mut self) -> (r: VecDeque<T>)
        ensures
            r@ == old(self).val@,
            r@.len() <= max_len::<T>(),
            final(self).val@ == Seq::<T>::empty(),
            final(self).alloc == old(self).alloc,
    {
        proof {
            use_type_invariant(&*self);
        }
        let mut val: VecDeque<T> = VecDeque::new();
        core::mem::swap(&mut val, &mut self.val);
        val
    }

    /// Puts `val` in place of no elements.
    fn put_val(&mut self, val: VecDeque<T>)
        requires
            old(self).val@.len() == 0,
            val@.len() <= max_len::<T>(),
        ensures
            final(self).val@ == val@,
            final(self).alloc == old(self).alloc,
    {
        self.val = val;
    }
}

/// A list of `T` whose storage is described by a `Layout` with allocator `A`.
pub struct CxxListLayout<T, A> {
    inner: Layout<T, A>,
}

impl<T, A> View for CxxListLayout<T, A> {
    type V = Seq<T>;

    closed spec fn view(&self) -> Seq<T> {
        self.inner.val@
    }
}

impl<T> CxxListLayout<T, SysAlloc> {
    /// An empty list carrying the system allocator's handle.
    pub fn new() -> (r: Self)
        ensures
            r@ == Seq::<T>::empty(),
    {
        CxxListLayout { inner: Layout::new_in(SysAlloc::default()) }
    }
}

impl<T, A> CxxListLayout<T, A> {
    /// The allocator handle of the list.
    pub closed spec fn alloc_spec(&self) -> A {
        self.inner.alloc
    }

    /// An empty list that carries the allocator handle `alloc`.
    pub fn new_in(alloc: A) -> (r: Self)
        ensures
            r@ == Seq::<T>::empty(),
            r.alloc_spec() == alloc,
    {
        CxxListLayout { inner: Layout::new_in(alloc) }
    }

    fn from_alloc(alloc: A) -> (r: Self)
        ensures
            r@ == Seq::<T>::empty(),
            r.alloc_spec() == alloc,
    {
        CxxListLayout { inner: Layout::new_in(alloc) }
    }

    /// The allocator handle.
    pub fn allocator(&self) -> (r: &A)
        ensures
            *r == self.alloc_spec(),
    {
        &self.inner.alloc
    }

    /// The elements of `list`, moved into a list that carries the allocator handle `alloc`.
    pub fn from_list_in<A2>(list: CxxListLayout<T, A2>, alloc: A) -> (r: Self)
        ensures
            r@ == list@,
            r.alloc_spec() == alloc,
    {
        proof {
            use_type_invariant(&list.inner);
        }
        let CxxListLayout { inner } = list;
        let Layout { alloc: _, val } = inner;
        CxxListLayout { inner: Layout { alloc, val } }
    }

    /// The elements of the list, moved into a list that carries the allocator handle `alloc`.
    pub fn into_list_in<A2>(self, alloc: A2) -> (r: CxxListLayout<T, A2>)
        ensures
            r@ == self@,
            r.alloc_spec() == alloc,
    {
        CxxListLayout::from_list_in(self, alloc)
    }

    /// The number of elements.
    pub fn len(&self) -> (r: usize)
        ensures
            r == self@.len(),
    {
        self.inner.val.len()
    }

    /// Whether the list holds no element.
    pub fn is_empty(&self) -> (r: bool)
        ensures
            r == (self@.len() == 0),
    {
        self.inner.val.len() == 0
    }

    /// The most elements a list of `T` can hold: this crate's own bound
    /// `limits::max_len::<T>()`, which counts the elements alone and not the links a
    /// linked list would add to each of them.
    pub fn max_size(&self) -> (r: usize)
        ensures
            r == max_len::<T>(),
            self@.len() <= r,
    {
        proof {
            use_type_invariant(&self.inner);
        }
        max_len_of::<T>()
    }

    /// The first element, if any.
    pub fn front(&self) -> (r: Option<&T>)
        ensures
            r matches Some(x) ==> front_of(self@) == Some(*x),
            r is None ==> front_of(self@) is None,
    {
        if self.is_empty() {
            None
        } else {
            Some(&self.inner.val[0])
        }
    }

    /// The first element, if any, for writing.
    pub fn front_mut(&mut self) -> (r: Option<&mut T>)
        ensures
            old(self)@.len() == 0 ==> r.is_none() && final(self)@ == old(self)@,
            old(self)@.len() > 0 ==> r.is_some() && *r.unwrap() == old(self)@[0] && final(self)@
                == old(self)@.update(0, *final(r.unwrap())),
            final(self).alloc_spec() == old(self).alloc_spec(),
    {
        proof {
            use_type_invariant(&self.inner);
        }
        deque_front_mut(&mut self.inner.val)
    }

    /// The last element, if any.
    pub fn back(&self) -> (r: Option<&T>)
        ensures
            r matches Some(x) ==> back_of(self@) == Some(*x),
            r is None ==> back_of(self@) is None,
    {
        if self.is_empty() {
            None
        } else {
            let n = self.inner.val.len();
            Some(&self.inner.val[n - 1])
        }
    }

    /// The last element, if any, for writing.
    pub fn back_mut(&mut self) -> (r: Option<&mut T>)
        ensures
            old(self)@.len() == 0 ==> r.is_none() && final(self)@ == old(self)@,
            old(self)@.len() > 0 ==> r.is_some() && *r.unwrap() == old(self)@.last() && final(self)@
                == old(self)@.update(old(self)@.len() - 1, *final(r.unwrap())),
            final(self).alloc_spec() == old(self).alloc_spec(),
    {
        proof {
            use_type_invariant(&self.inner);
        }
        deque_back_mut(&mut self.inner.val)
    }

    /// Puts `value` in front; no effect when the list is at the element limit.
    pub fn push_front(&mut self, value: T)
        ensures
            final(self)@ == push_front_result(old(self)@, value),
            final(self).alloc_spec() == old(self).alloc_spec(),
    {
        if self.inner.val.len() < max_len_of::<T>() {
            let mut val = self.inner.take_val();
            val.push_front(value);
            self.inner.put_val(val);
        }
    }

    /// Puts a clone of `value` in front; no effect when the list is at the element limit.
    pub fn push_front_copy(&mut self, value: &T) where T: Clone
        ensures
            old(self)@.len() < max_len::<T>() ==> {
                &&& final(self)@.len() == old(self)@.len() + 1
                &&& cloned::<T>(*value, final(self)@[0])
                &&& final(self)@.drop_first() == old(self)@
            },
            old(self)@.len() >= max_len::<T>() ==> final(self)@ == old(self)@,
            final(self).alloc_spec() == old(self).alloc_spec(),
    {
        if self.inner.val.len() < max_len_of::<T>() {
            let copy = value.clone();
            let mut val = self.inner.take_val();
            val.push_front(copy);
            self.inner.put_val(val);
            proof {
                assert(self@.drop_first() =~= old(self)@);
            }
        }
    }

    /// Puts `value` at the back; no effect when the list is at the element limit.
    pub fn push_back(&mut self, value: T)
        ensures
            final(self)@ == push_back_result(old(self)@, value),
            final(self).alloc_spec() == old(self).alloc_spec(),
    {
        if self.inner.val.len() < max_len_of::<T>() {
            let mut val = self.inner.take_val();
            val.push_back(value);
            self.inner.put_val(val);
        }
    }

    /// Puts a clone of `value` at the back; no effect when the list is at the element limit.
    pub fn push_back_copy(&mut self, value: &T) where T: Clone
        ensures
            old(self)@.len() < max_len::<T>() ==> {
                &&& final(self)@.len() == old(self)@.len() + 1
                &&& cloned::<T>(*value, final(self)@.last())
                &&& final(self)@.drop_last() == old(self)@
            },
            old(self)@.len() >= max_len::<T>() ==> final(self)@ == old(self)@,
            final(self).alloc_spec() == old(self).alloc_spec(),
    {
        if self.inner.val.len() < max_len_of::<T>() {
            let copy = value.clone();
            let mut val = self.inner.take_val();
            val.push_back(copy);
            self.inner.put_val(val);
            proof {
                assert(self@.drop_last() =~= old(self)@);
            }
        }
    }

    /// Removes the last element, if any, without running its destructor.
    pub fn pop_back(&mut self)
        ensures
            final(self)@ == pop_back_result(old(self)@),
            final(self).alloc_spec() == old(self).alloc_spec(),
    {
        if !self.is_empty() {
            let mut val = self.inner.take_val();
            if let Some(x) = val.pop_back() {
                let _kept = core::mem::ManuallyDrop::new(x);
            }
            self.inner.put_val(val);
        }
    }

    /// Removes the first element, if any, without running its destructor.
    pub fn pop_front(&mut self)
        ensures
            final(self)@ == pop_front_result(old(self)@),
            final(self).alloc_spec() == old(self).alloc_spec(),
    {
        if !self.is_empty() {
            let mut val = self.inner.take_val();
            if let Some(x) = val.pop_front() {
                let _kept = core::mem::ManuallyDrop::new(x);
            }
            self.inner.put_val(val);
        }
    }

    /// Drops every element.
    pub fn clear(&mut self)
        ensures
            final(self)@ == Seq::<T>::empty(),
            final(self).alloc_spec() == old(self).alloc_spec(),
    {
        let mut val = self.inner.take_val();
        val.clear();
        self.inner.put_val(val);
    }

    /// Replaces the elements with `new_size` clones of `value`; no effect when `new_size`
    /// exceeds the element limit.
    pub fn assign(&mut self, new_size: usize, value: &T) where T: Clone
        ensures
            new_size <= max_len::<T>() ==> {
                &&& final(self)@.len() == new_size
                &&& forall|i: int| 0 <= i < new_size ==> cloned::<T>(*value, #[trigger] final(self)@[i])
            },
            new_size > max_len::<T>() ==> final(self)@ == old(self)@,
            final(self).alloc_spec() == old(self).alloc_spec(),
    {
        if new_size <= max_len_of::<T>() {
            let mut val = self.inner.take_val();
            val.clear();
            let mut i: usize = 0;
            while i < new_size
                invariant
                    0 <= i <= new_size,
                    new_size <= max_len::<T>(),
                    val@.len() == i,
                    forall|j: int| 0 <= j < i ==> cloned::<T>(*value, #[trigger] val@[j]),
                decreases new_size - i,
            {
                let copy = value.clone();
                val.push_back(copy);
                i = i + 1;
            }
            self.inner.put_val(val);
        }
    }

    /// Exchanges the elements of the two lists; each keeps its allocator handle.
    pub fn swap(&mut self, other: &mut Self)
        ensures
            final(self)@ == old(other)@,
            final(other)@ == old(self)@,
            final(self).alloc_spec() == old(self).alloc_spec(),
            final(other).alloc_spec() == old(other).alloc_spec(),
    {
        proof {
            use_type_invariant(&self.inner);
            use_type_invariant(&other.inner);
        }
        core::mem::swap(&mut self.inner.val, &mut other.inner.val);
    }

    /// Resizes to `new_len` elements, filling with clones of `value` or dropping the tail;
    /// no effect when `new_len` exceeds the element limit.
    pub fn resize(&mut self, new_len: usize, value: T) where T: Clone
        requires
            new_len <= isize::MAX,
        ensures
            new_len <= old(self)@.len() ==> final(self)@ == old(self)@.take(new_len as int),
            old(self)@.len() < new_len <= max_len::<T>() ==> {
                &&& final(self)@.len() == new_len
                &&& final(self)@.take(old(self)@.len() as int) == old(self)@
                &&& forall|i: int| old(self)@.len() <= i < new_len ==> cloned::<T>(value, #[trigger] final(self)@[i])
            },
            new_len > max_len::<T>() ==> final(self)@ == old(self)@,
            final(self).alloc_spec() == old(self).alloc_spec(),
    {
        proof {
            use_type_invariant(&self.inner);
        }
        if new_len <= max_len_of::<T>() {
            let mut val = self.inner.take_val();
            val.resize(new_len, value);
            self.inner.put_val(val);
        }
    }

    /// Resizes to `new_len` elements, filling the back with values returned by `f`, or
    /// dropping the tail; the list stops growing at the element limit.
    pub fn resize_with<F>(&mut self, new_len: usize, mut f: F) where F: FnMut() -> T, T: Clone
        requires
            call_requires(f, ()),
        ensures
            new_len <= old(self)@.len() ==> final(self)@ == old(self)@.take(new_len as int),
            new_len > old(self)@.len() ==> {
                &&& final(self)@.len() == if new_len <= max_len::<T>() { new_len as nat } else { max_len::<T>() }
                &&& final(self)@.take(old(self)@.len() as int) == old(self)@
                &&& forall|i: int| old(self)@.len() <= i < final(self)@.len() ==> call_ensures(f, (), #[trigger] final(self)@[i])
            },
            final(self).alloc_spec() == old(self).alloc_spec(),
    {
        proof {
            use_type_invariant(&self.inner);
        }
        let len = self.len();
        if new_len > len {
            let additional = new_len - len;
            let mut i: usize = 0;
            let ghost f0 = f;
            while i < additional
                invariant
                    f == f0,
                    0 <= i <= additional,
                    additional == new_len - len,
                    len == old(self)@.len(),
                    self@.len() == if len + i <= max_len::<T>() { (len + i) as nat } else { max_len::<T>() },
                    self@.take(len as int) == old(self)@,
                    forall|j: int| len <= j < self@.len() ==> call_ensures(f, (), #[trigger] self@[j]),
                    call_requires(f, ()),
                    self.alloc_spec() == old(self).alloc_spec(),
                decreases additional - i,
            {
                let value = f();
                self.push_back(value);
                i = i + 1;
            }
        } else if new_len < len {
            let value = f();
            self.resize(new_len, value);
        }
    }

    /// Borrows the elements one by one, in order.
    pub fn iter(&self) -> (r: Iter<'_, T>)
        ensures
            r@ == self@,
    {
        Iter::new(&self.inner.val)
    }

    /// Hands the elements out one by one, in order, by value.
    pub fn into_iter(self) -> (r: IntoIter<T, A>)
        ensures
            r@ == self@,
            r.start_len() == self@.len(),
            r.alloc_spec() == self.alloc_spec(),
    {
        let CxxListLayout { inner } = self;
        let Layout { alloc, val } = inner;
        IntoIter::new(alloc, val)
    }
}

/// Calls `VecDeque::front_mut`: a mutable reference to the first element, if any; what is
/// written through it becomes the first element.
#[verifier::external_body]
fn deque_front_mut<T>(v: &mut VecDeque<T>) -> (r: Option<&mut T>)
    ensures
        old(v)@.len() == 0 ==> r.is_none() && final(v)@ == old(v)@,
        old(v)@.len() > 0 ==> r.is_some() && *r.unwrap() == old(v)@[0] && final(v)@ == old(
            v,
        )@.update(0, *final(r.unwrap())),
    no_unwind
{
    v.front_mut()
}

/// Calls `VecDeque::back_mut`: a mutable reference to the last element, if any; what is
/// written through it becomes the last element.
#[verifier::external_body]
fn deque_back_mut<T>(v: &mut VecDeque<T>) -> (r: Option<&mut T>)
    ensures
        old(v)@.len() == 0 ==> r.is_none() && final(v)@ == old(v)@,
        old(v)@.len() > 0 ==> r.is_some() && *r.unwrap() == old(v)@.last() && final(v)@ == old(
            v,
        )@.update(old(v)@.len() - 1, *final(r.unwrap())),
    no_unwind
{
    v.back_mut()
}

impl<T: Clone, A: Clone> Clone for CxxListLayout<T, A> {
    /// A list of clones of the elements, with a clone of the allocator handle.
    fn clone(&self) -> (r: Self)
        ensures
            r@.len() == self@.len(),
            forall|i: int| 0 <= i < self@.len() ==> cloned::<T>(self@[i], #[trigger] r@[i]),
            cloned::<A>(self.alloc_spec(), r.alloc_spec()),
    {
        proof {
            use_type_invariant(&self.inner);
        }
        let alloc = self.inner.alloc.clone();
        let val = self.inner.val.clone();
        CxxListLayout { inner: Layout { alloc, val } }
    }
}

impl<T, A: Default> Default for CxxListLayout<T, A> {
    /// An empty list with the default allocator handle.
    fn default() -> (r: Self)
        ensures
            r@ == Seq::<T>::empty(),
            call_ensures(A::default, (), r.alloc_spec()),
    {
        Self::from_alloc(A::default())
    }
}

impl<T, A> AsRef<CxxListLayout<T, A>> for CxxListLayout<T, A> {
    /// The list itself.
    fn as_ref(&self) -> (r: &Self)
        ensures
            r == self,
    {
        self
    }
}

impl<T, A> AsMut<CxxListLayout<T, A>> for CxxListLayout<T, A> {
    /// The list itself.
    fn as_mut(&mut self) -> (r: &mut Self)
        ensures
            *r == *old(self),
            *final(self) == *final(r),
    {
        self
    }
}

impl<T: Ord, A> CxxListLayout<T, A> {
    /// Lexicographic comparison of the elements under their total order.
    pub fn cmp(&self, other: &Self) -> (r: Ordering)
        ensures
            totally_ordered_elems::<T>() ==> r == seq_total(self@, other@),
    {
        seqs_total(&self.inner.val, &other.inner.val)
    }
}

impl<T: PartialEq, A1, A2> PartialEq<CxxListLayout<T, A2>> for CxxListLayout<T, A1> {
    /// Equal when as long and equal position by position.
    fn eq(&self, other: &CxxListLayout<T, A2>) -> (r: bool) {
        self.len() == other.len() && seqs_equal(&self.inner.val, &other.inner.val)
    }
}

impl<T: PartialEq, A1, A2> PartialEqSpecImpl<CxxListLayout<T, A2>> for CxxListLayout<T, A1> {
    open spec fn obeys_eq_spec() -> bool {
        equal_elems::<T>()
    }

    open spec fn eq_spec(&self, other: &CxxListLayout<T, A2>) -> bool {
        seq_eq(self@, other@)
    }
}

impl<T: Eq, A> Eq for CxxListLayout<T, A> {

}

impl<T: PartialOrd, A1, A2> PartialOrd<CxxListLayout<T, A2>> for CxxListLayout<T, A1> {
    /// Lexicographic comparison of the elements.
    fn partial_cmp(&self, other: &CxxListLayout<T, A2>) -> (r: Option<Ordering>) {
        outcome_to_order(seqs_lex(&self.inner.val, &other.inner.val))
    }
}

impl<T: PartialOrd, A1, A2> PartialOrdSpecImpl<CxxListLayout<T, A2>> for CxxListLayout<T, A1> {
    open spec fn obeys_partial_cmp_spec() -> bool {
        ordered_elems::<T>()
    }

    open spec fn partial_cmp_spec(&self, other: &CxxListLayout<T, A2>) -> Option<Ordering> {
        outcome_order(seq_lex(self@, other@))
    }
}

} // verus!

//! What the operations of a list promise together.
use core::cmp::Ordering;
use vstd::prelude::*;
use vstd::std_specs::cmp::{PartialEqSpec, PartialOrdSpec};

use super::{
    back_of, front_of, pop_back_result, pop_front_result, push_back_result, push_front_result,
};
use super::CxxListLayout;
use crate::limits::max_len;
use crate::order::{law_lex_common_prefix, law_lex_first_difference};

verus! {

/// Dropping the front right after putting an element in front gives back the elements as
/// they were.
pub proof fn law_pop_front_undoes_push_front<T>(s: Seq<T>, x: T)
    requires
        s.len() < max_len::<T>(),
    ensures
        pop_front_result(push_front_result(s, x)) == s,
{
    assert((seq![x] + s).drop_first() =~= s);
}

/// Dropping the back right after putting an element at the back gives back the elements as
/// they were.
pub proof fn law_pop_back_undoes_push_back<T>(s: Seq<T>, x: T)
    requires
        s.len() < max_len::<T>(),
    ensures
        pop_back_result(push_back_result(s, x)) == s,
{
    assert(s.push(x).drop_last() =~= s);
}

/// An element put in front is the front; one put at the back is the back.
pub proof fn law_pushed_element_is_at_its_end<T>(s: Seq<T>, x: T)
    requires
        s.len() < max_len::<T>(),
    ensures
        front_of(push_front_result(s, x)) == Some(x),
        back_of(push_back_result(s, x)) == Some(x),
{
}

/// Putting an element at one end leaves the element at the other end as it was, when
/// there was one.
pub proof fn law_push_keeps_other_end<T>(s: Seq<T>, x: T)
    requires
        0 < s.len() < max_len::<T>(),
    ensures
        back_of(push_front_result(s, x)) == back_of(s),
        front_of(push_back_result(s, x)) == front_of(s),
{
}

/// Elements put at the back come out at the front in the order they went in.
pub proof fn law_queue_order<T>(x: T, y: T)
    requires
        2 <= max_len::<T>(),
    ensures
        front_of(push_back_result(push_back_result(Seq::<T>::empty(), x), y)) == Some(x),
        front_of(pop_front_result(push_back_result(push_back_result(Seq::<T>::empty(), x), y)))
            == Some(y),
{
    let s = Seq::<T>::empty().push(x).push(y);
    assert(s.drop_first() =~= seq![y]);
}

/// Two lists are equal exactly when they are as long and equal position by position.
pub proof fn law_eq_elementwise<T: PartialEq, A1, A2>(a: CxxListLayout<T, A1>, b: CxxListLayout<T, A2>)
    ensures
        a.eq_spec(&b) <==> (a@.len() == b@.len() && forall|i: int|
            0 <= i < a@.len() ==> (#[trigger] a@[i]).eq_spec(&b@[i])),
{
}

/// The first pair of elements that does not compare equal decides how two lists
/// compare.
pub proof fn law_order_first_difference<T: PartialOrd, A1, A2>(
    a: CxxListLayout<T, A1>,
    b: CxxListLayout<T, A2>,
    i: int,
)
    requires
        0 <= i < a@.len(),
        i < b@.len(),
        forall|j: int|
            0 <= j < i ==> (#[trigger] a@[j]).partial_cmp_spec(&b@[j]) == Some(Ordering::Equal),
        a@[i].partial_cmp_spec(&b@[i]) != Some(Ordering::Equal),
    ensures
        a.partial_cmp_spec(&b) == a@[i].partial_cmp_spec(&b@[i]),
{
    law_lex_first_difference(a@, b@, i);
}

/// Where every pair of elements up to the end of the shorter list compares equal, the
/// lengths decide how two lists compare: the shorter is less.
pub proof fn law_order_common_prefix<T: PartialOrd, A1, A2>(a: CxxListLayout<T, A1>, b: CxxListLayout<T, A2>)
    requires
        forall|j: int|
            0 <= j < a@.len() && j < b@.len() ==> (#[trigger] a@[j]).partial_cmp_spec(&b@[j])
                == Some(Ordering::Equal),
    ensures
        a.partial_cmp_spec(&b) == if a@.len() < b@.len() {
            Some(Ordering::Less)
        } else if a@.len() == b@.len() {
            Some(Ordering::Equal)
        } else {
            Some(Ordering::Greater)
        },
{
    law_lex_common_prefix(a@, b@);
}

} // verus!

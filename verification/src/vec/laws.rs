//! What the operations of a vector promise together.
use core::cmp::Ordering;
use vstd::prelude::*;
use vstd::std_specs::cmp::{PartialEqSpec, PartialOrdSpec};

use super::{grown_capacity, insert_result, pop_result, push_result, remove_result, truncate_result};
use super::CxxVecLayout;
use crate::limits::max_len;
use crate::order::{law_lex_common_prefix, law_lex_first_difference};

verus! {

/// Popping right after a push gives back the pushed element, and the elements as they
/// were before the push.
pub proof fn law_pop_undoes_push<T>(s: Seq<T>, x: T)
    requires
        s.len() < max_len::<T>(),
    ensures
        pop_result(push_result(s, x)) == (s, Some(x)),
{
    assert(s.push(x).drop_last() =~= s);
}

/// Removing at the position of an insertion gives back the inserted element, and the
/// elements as they were before the insertion.
pub proof fn law_remove_undoes_insert<T>(s: Seq<T>, i: int, x: T)
    requires
        0 <= i <= s.len(),
        s.len() < max_len::<T>(),
    ensures
        remove_result(insert_result(s, i, x), i) == (s, x),
{
    assert(s.insert(i, x).remove(i) =~= s);
}

/// A push that lands adds exactly one element, at the end, and keeps the others.
pub proof fn law_push_appends<T>(s: Seq<T>, x: T)
    requires
        s.len() < max_len::<T>(),
    ensures
        push_result(s, x).len() == s.len() + 1,
        push_result(s, x).last() == x,
        push_result(s, x).take(s.len() as int) == s,
{
    assert(s.push(x).take(s.len() as int) =~= s);
}

/// Truncating a second time to the same length changes nothing.
pub proof fn law_truncate_idempotent<T>(s: Seq<T>, n: int)
    requires
        0 <= n,
    ensures
        truncate_result(truncate_result(s, n), n) == truncate_result(s, n),
{
}

/// Truncating to `n` keeps the first `min(n, len)` elements.
pub proof fn law_truncate_keeps_prefix<T>(s: Seq<T>, n: int)
    requires
        0 <= n,
    ensures
        truncate_result(s, n).len() == if n < s.len() { n } else { s.len() as int },
        forall|i: int| 0 <= i < truncate_result(s, n).len() ==> #[trigger] truncate_result(s, n)[i] == s[i],
{
}

/// After an element is added, the capacity still covers the length and stays within the
/// element limit.
pub proof fn law_growth_covers_length<T>(len: nat, cap: nat)
    requires
        len <= cap <= max_len::<T>(),
        len < max_len::<T>(),
    ensures
        len + 1 <= grown_capacity::<T>(len, cap) <= max_len::<T>(),
        cap <= grown_capacity::<T>(len, cap),
{
}

/// Adding an element within the reserved capacity keeps the capacity.
pub proof fn law_push_within_capacity_keeps_capacity<T>(len: nat, cap: nat)
    requires
        len < cap,
    ensures
        grown_capacity::<T>(len, cap) == cap,
{
}

/// A full vector doubles its capacity, up to the element limit.
pub proof fn law_full_vector_doubles<T>(len: nat)
    requires
        0 < len,
        len + len <= max_len::<T>(),
    ensures
        grown_capacity::<T>(len, len) == len + len,
{
}

/// Two vectors are equal exactly when they are as long and equal position by position.
pub proof fn law_eq_elementwise<T: PartialEq, A1, A2>(a: CxxVecLayout<T, A1>, b: CxxVecLayout<T, A2>)
    ensures
        a.eq_spec(&b) <==> (a@.len() == b@.len() && forall|i: int|
            0 <= i < a@.len() ==> (#[trigger] a@[i]).eq_spec(&b@[i])),
{
}

/// The first pair of elements that does not compare equal decides how two vectors
/// compare.
pub proof fn law_order_first_difference<T: PartialOrd, A1, A2>(
    a: CxxVecLayout<T, A1>,
    b: CxxVecLayout<T, A2>,
    i: int,
)
    requires
        0 <= i < a@.len(),
        i < b@.len(),
        forall|j: int|
            0 <= j < i ==> (#[trigger] a@[j]).partial_cmp_spec(&b@[j]) == Some(Ordering::Equal),
        a@[i].partial_cmp_spec(&b@[i]) != Some(Ordering::Equal),
    ensures
        a.partial_cmp_spec(&b) == a@[i].partial_cmp_spec(&b@[i]),
{
    law_lex_first_difference(a@, b@, i);
}

/// Where every pair of elements up to the end of the shorter vector compares equal, the
/// lengths decide how two vectors compare: the shorter is less.
pub proof fn law_order_common_prefix<T: PartialOrd, A1, A2>(a: CxxVecLayout<T, A1>, b: CxxVecLayout<T, A2>)
    requires
        forall|j: int|
            0 <= j < a@.len() && j < b@.len() ==> (#[trigger] a@[j]).partial_cmp_spec(&b@[j])
                == Some(Ordering::Equal),
    ensures
        a.partial_cmp_spec(&b) == if a@.len() < b@.len() {
            Some(Ordering::Less)
        } else if a@.len() == b@.len() {
            Some(Ordering::Equal)
        } else {
            Some(Ordering::Greater)
        },
{
    law_lex_common_prefix(a@, b@);
}

} // verus!

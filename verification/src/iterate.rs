//! What iterating over a sequence of elements yields, call after call.
use vstd::prelude::*;

verus! {

/// One call of `next` on an iterator whose elements still to come are `s`: the elements
/// still to come afterwards, and what the call returns.
pub open spec fn next_step<T>(s: Seq<T>) -> (Seq<T>, Option<T>) {
    if s.len() == 0 {
        (s, None)
    } else {
        (s.drop_first(), Some(s[0]))
    }
}

/// The elements still to come after `k` calls of `next`, starting from `s`.
pub open spec fn rest_after<T>(s: Seq<T>, k: nat) -> Seq<T>
    decreases k,
{
    if k == 0 {
        s
    } else {
        next_step(rest_after(s, (k - 1) as nat)).0
    }
}

/// What the call of `next` after `k` earlier calls returns, starting from `s`.
pub open spec fn yield_at<T>(s: Seq<T>, k: nat) -> Option<T> {
    next_step(rest_after(s, k)).1
}

/// After `k` calls, the first `k` elements are gone, or all of them once `k` reaches the
/// length; so the number still to come is the length less `k`.
pub proof fn law_rest_after<T>(s: Seq<T>, k: nat)
    ensures
        k <= s.len() ==> rest_after(s, k) == s.skip(k as int),
        k > s.len() ==> rest_after(s, k) == Seq::<T>::empty(),
        k <= s.len() ==> rest_after(s, k).len() == s.len() - k,
    decreases k,
{
    if k > 0 {
        law_rest_after(s, (k - 1) as nat);
        if k <= s.len() {
            assert(s.skip(k - 1).drop_first() =~= s.skip(k as int));
        } else if k - 1 == s.len() {
            assert(s.skip(s.len() as int) =~= Seq::<T>::empty());
        }
    } else {
        assert(s.skip(0) =~= s);
    }
}

/// The calls of `next` yield every element once, in order, and then nothing, for ever.
pub proof fn law_yields_in_order<T>(s: Seq<T>, k: nat)
    ensures
        k < s.len() ==> yield_at(s, k) == Some(s[k as int]),
        k >= s.len() ==> yield_at(s, k) == None::<T>,
{
    law_rest_after(s, k);
    if k >= s.len() {
        if k == s.len() {
            assert(s.skip(k as int) =~= Seq::<T>::empty());
        }
    }
}

/// The number of calls of `next` that yield an element is the length.
pub proof fn law_yield_count<T>(s: Seq<T>)
    ensures
        forall|k: nat| (#[trigger] yield_at(s, k)) is Some <==> k < s.len(),
{
    assert forall|k: nat| (#[trigger] yield_at(s, k)) is Some <==> k < s.len() by {
        law_yields_in_order(s, k);
    }
}

} // verus!

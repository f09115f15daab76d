//! Element-wise equality and lexicographic comparison of sequences of elements.
use vstd::prelude::*;
use vstd::std_specs::cmp::PartialEqSpec;

use crate::elems::ElemSeq;
use crate::order::{
    elem_ge, elem_le, lemma_lex_end, lemma_lex_start, lemma_lex_step, lemma_pair_outcome,
    len_lex, ordered_elems, pair_lex, pair_outcome, seq_lex, LexOutcome,
};

verus! {

/// The length of the shorter of two sequences.
pub open spec fn shorter_len<T>(a: Seq<T>, b: Seq<T>) -> int {
    if a.len() < b.len() {
        a.len() as int
    } else {
        b.len() as int
    }
}

/// Two sequences are equal when they are as long and equal position by position.
pub open spec fn seq_eq<T: PartialEq>(a: Seq<T>, b: Seq<T>) -> bool {
    &&& a.len() == b.len()
    &&& forall|i: int| 0 <= i < a.len() ==> (#[trigger] a[i]).eq_spec(&b[i])
}

/// Whether the elements' equality follows its specification.
pub open spec fn equal_elems<T: PartialEq>() -> bool {
    T::obeys_eq_spec()
}

/// Where equality of elements agrees with their order, two sequences are equal exactly
/// when they compare equal.
pub proof fn law_eq_agrees_with_order<T: PartialEq + PartialOrd>(a: Seq<T>, b: Seq<T>)
    requires
        forall|x: T, y: T| x.eq_spec(&y) <==> #[trigger] pair_lex(x, y) == LexOutcome::Equal,
    ensures
        seq_eq(a, b) <==> seq_lex(a, b) == LexOutcome::Equal,
    decreases a.len(),
{
    if a.len() > 0 && b.len() > 0 {
        law_eq_agrees_with_order(a.drop_first(), b.drop_first());
        if seq_eq(a, b) {
            assert(a[0].eq_spec(&b[0]));
            assert(pair_lex(a[0], b[0]) == LexOutcome::Equal);
            assert forall|i: int| 0 <= i < a.drop_first().len() implies (
            #[trigger] a.drop_first()[i]).eq_spec(&b.drop_first()[i]) by {
                assert(a.drop_first()[i] == a[i + 1]);
                assert(b.drop_first()[i] == b[i + 1]);
            }
        }
        if seq_lex(a, b) == LexOutcome::Equal {
            assert(pair_lex(a[0], b[0]) == LexOutcome::Equal);
            assert(seq_eq(a.drop_first(), b.drop_first()));
            assert forall|i: int| 0 <= i < a.len() implies (#[trigger] a[i]).eq_spec(&b[i]) by {
                if i > 0 {
                    assert(a.drop_first()[i - 1] == a[i]);
                    assert(b.drop_first()[i - 1] == b[i]);
                }
            }
        }
    }
}

/// Where every element equals itself, a sequence equals itself.
pub proof fn law_eq_reflexive<T: PartialEq>(a: Seq<T>)
    requires
        forall|i: int| 0 <= i < a.len() ==> (#[trigger] a[i]).eq_spec(&a[i]),
    ensures
        seq_eq(a, a),
{
}

/// Where equality of elements is symmetric, so is equality of sequences.
pub proof fn law_eq_symmetric<T: PartialEq>(a: Seq<T>, b: Seq<T>)
    requires
        forall|x: T, y: T| #[trigger] x.eq_spec(&y) ==> y.eq_spec(&x),
        seq_eq(a, b),
    ensures
        seq_eq(b, a),
{
    assert forall|i: int| 0 <= i < b.len() implies (#[trigger] b[i]).eq_spec(&a[i]) by {
        assert(a[i].eq_spec(&b[i]));
    }
}

/// Compares two sequences position by position.
pub fn seqs_equal<T: PartialEq, S: ElemSeq<T>, U: ElemSeq<T>>(a: &S, b: &U) -> (r: bool)
    ensures
        equal_elems::<T>() ==> r == seq_eq(a.elems(), b.elems()),
{
    let n = a.count();
    if n != b.count() {
        return false;
    }
    let mut i: usize = 0;
    while i < n
        invariant
            n == a.elems().len(),
            a.elems().len() == b.elems().len(),
            0 <= i <= n,
            equal_elems::<T>() ==> forall|j: int|
                0 <= j < i ==> (#[trigger] a.elems()[j]).eq_spec(&b.elems()[j]),
        decreases n - i,
    {
        if !(a.at(i) == b.at(i)) {
            return false;
        }
        i = i + 1;
    }
    true
}

/// Compares two sequences lexicographically.
pub fn seqs_lex<T: PartialOrd, S: ElemSeq<T>, U: ElemSeq<T>>(a: &S, b: &U) -> (r: LexOutcome)
    ensures
        ordered_elems::<T>() ==> r == seq_lex(a.elems(), b.elems()),
{
    proof {
        lemma_lex_start(a.elems(), b.elems());
    }
    let la = a.count();
    let lb = b.count();
    let n = if la < lb { la } else { lb };
    let mut i: usize = 0;
    while i < n
        invariant
            la == a.elems().len(),
            lb == b.elems().len(),
            n <= la,
            n <= lb,
            n == la || n == lb,
            0 <= i <= n,
            ordered_elems::<T>() ==> seq_lex(a.elems(), b.elems()) == seq_lex(
                a.elems().skip(i as int),
                b.elems().skip(i as int),
            ),
        decreases n - i,
    {
        let x = a.at(i);
        let y = b.at(i);
        let le = *x <= *y;
        let ge = *x >= *y;
        proof {
            lemma_lex_step(a.elems(), b.elems(), i as int);
            lemma_pair_outcome(a.elems()[i as int], b.elems()[i as int]);
            if ordered_elems::<T>() {
                assert(le == elem_le(a.elems()[i as int], b.elems()[i as int]));
                assert(ge == elem_ge(a.elems()[i as int], b.elems()[i as int]));
                assert(pair_outcome(le, ge) == pair_lex(a.elems()[i as int], b.elems()[i as int]));
            }
        }
        if !(le && ge) {
            return if le {
                LexOutcome::Less
            } else if ge {
                LexOutcome::Greater
            } else {
                LexOutcome::Unordered
            };
        }
        i = i + 1;
    }
    proof {
        lemma_lex_end(a.elems(), b.elems(), i as int);
    }
    if la < lb {
        LexOutcome::Less
    } else if la == lb {
        LexOutcome::Equal
    } else {
        LexOutcome::Greater
    }
}

} // verus!

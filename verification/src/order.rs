//! Lexicographic order of sequences, as the containers of this crate compare.
use core::cmp::Ordering;
use vstd::prelude::*;
use vstd::std_specs::cmp::{OrdSpec, PartialOrdSpec};

use crate::elems::ElemSeq;
use crate::lexico::shorter_len;

verus! {

/// The result of comparing two values or two sequences under a partial order.
pub enum LexOutcome {
    Less,
    Equal,
    Greater,
    Unordered,
}

/// Whether the elements' partial order follows its specification.
pub open spec fn ordered_elems<T: PartialOrd>() -> bool {
    T::obeys_partial_cmp_spec()
}

/// How `x` compares with `y` under the partial order of `T`.
pub open spec fn pair_lex<T: PartialOrd>(x: T, y: T) -> LexOutcome {
    match x.partial_cmp_spec(&y) {
        Some(Ordering::Less) => LexOutcome::Less,
        Some(Ordering::Equal) => LexOutcome::Equal,
        Some(Ordering::Greater) => LexOutcome::Greater,
        None => LexOutcome::Unordered,
    }
}

/// Whether `x <= y` holds under the partial order of `T`.
pub open spec fn elem_le<T: PartialOrd>(x: T, y: T) -> bool {
    x.partial_cmp_spec(&y) matches Some(Ordering::Less | Ordering::Equal)
}

/// Whether `x >= y` holds under the partial order of `T`.
pub open spec fn elem_ge<T: PartialOrd>(x: T, y: T) -> bool {
    x.partial_cmp_spec(&y) matches Some(Ordering::Greater | Ordering::Equal)
}

/// How two lengths compare.
pub open spec fn len_lex(m: nat, n: nat) -> LexOutcome {
    if m < n {
        LexOutcome::Less
    } else if m == n {
        LexOutcome::Equal
    } else {
        LexOutcome::Greater
    }
}

/// Lexicographic comparison of two sequences: the first pair of elements that is not
/// equal decides, and where one sequence is a prefix of the other, the shorter is less.
pub open spec fn seq_lex<T: PartialOrd>(a: Seq<T>, b: Seq<T>) -> LexOutcome
    decreases a.len(),
{
    if a.len() == 0 || b.len() == 0 {
        len_lex(a.len(), b.len())
    } else {
        match pair_lex(a[0], b[0]) {
            LexOutcome::Equal => seq_lex(a.drop_first(), b.drop_first()),
            other => other,
        }
    }
}

/// The `Option<Ordering>` that an outcome stands for.
pub open spec fn outcome_order(l: LexOutcome) -> Option<Ordering> {
    match l {
        LexOutcome::Less => Some(Ordering::Less),
        LexOutcome::Equal => Some(Ordering::Equal),
        LexOutcome::Greater => Some(Ordering::Greater),
        LexOutcome::Unordered => None,
    }
}

/// Converts an outcome to the `Option<Ordering>` it stands for.
pub fn outcome_to_order(l: LexOutcome) -> (r: Option<Ordering>)
    ensures
        r == outcome_order(l),
{
    match l {
        LexOutcome::Less => Some(Ordering::Less),
        LexOutcome::Equal => Some(Ordering::Equal),
        LexOutcome::Greater => Some(Ordering::Greater),
        LexOutcome::Unordered => None,
    }
}

/// The outcome of comparing one pair, given whether `x <= y` and whether `x >= y`.
pub open spec fn pair_outcome(le: bool, ge: bool) -> LexOutcome {
    if le && ge {
        LexOutcome::Equal
    } else if le {
        LexOutcome::Less
    } else if ge {
        LexOutcome::Greater
    } else {
        LexOutcome::Unordered
    }
}

/// `x <= y` and `x >= y` together tell how `x` compares with `y`.
pub proof fn lemma_pair_outcome<T: PartialOrd>(x: T, y: T)
    ensures
        pair_outcome(elem_le(x, y), elem_ge(x, y)) == pair_lex(x, y),
{
}

/// Comparing from position `i` on: the pair at `i` decides unless it is equal.
pub proof fn lemma_lex_step<T: PartialOrd>(a: Seq<T>, b: Seq<T>, i: int)
    requires
        0 <= i < a.len(),
        0 <= i < b.len(),
    ensures
        seq_lex(a.skip(i), b.skip(i)) == match pair_lex(a[i], b[i]) {
            LexOutcome::Equal => seq_lex(a.skip(i + 1), b.skip(i + 1)),
            other => other,
        },
{
    assert(a.skip(i).drop_first() =~= a.skip(i + 1));
    assert(b.skip(i).drop_first() =~= b.skip(i + 1));
    assert(a.skip(i)[0] == a[i]);
    assert(b.skip(i)[0] == b[i]);
}

/// Comparing from the end of one of the sequences on: the lengths decide.
pub proof fn lemma_lex_end<T: PartialOrd>(a: Seq<T>, b: Seq<T>, i: int)
    requires
        0 <= i <= a.len(),
        0 <= i <= b.len(),
        i == a.len() || i == b.len(),
    ensures
        seq_lex(a.skip(i), b.skip(i)) == len_lex(a.len(), b.len()),
{
}

/// Comparing from the start is comparing the whole sequences.
pub proof fn lemma_lex_start<T: PartialOrd>(a: Seq<T>, b: Seq<T>)
    ensures
        seq_lex(a.skip(0), b.skip(0)) == seq_lex(a, b),
{
    assert(a.skip(0) =~= a);
    assert(b.skip(0) =~= b);
}

/// The outcome with its operands exchanged.
pub open spec fn flipped(l: LexOutcome) -> LexOutcome {
    match l {
        LexOutcome::Less => LexOutcome::Greater,
        LexOutcome::Equal => LexOutcome::Equal,
        LexOutcome::Greater => LexOutcome::Less,
        LexOutcome::Unordered => LexOutcome::Unordered,
    }
}

/// Where every element compares equal to itself, a sequence compares equal to itself.
pub proof fn law_lex_reflexive<T: PartialOrd>(a: Seq<T>)
    requires
        forall|i: int| 0 <= i < a.len() ==> pair_lex(#[trigger] a[i], a[i]) == LexOutcome::Equal,
    ensures
        seq_lex(a, a) == LexOutcome::Equal,
    decreases a.len(),
{
    if a.len() > 0 {
        assert(pair_lex(a[0], a[0]) == LexOutcome::Equal);
        assert forall|i: int| 0 <= i < a.drop_first().len() implies pair_lex(
            #[trigger] a.drop_first()[i],
            a.drop_first()[i],
        ) == LexOutcome::Equal by {
            assert(a.drop_first()[i] == a[i + 1]);
        }
        law_lex_reflexive(a.drop_first());
    }
}

/// Where exchanging two elements flips how they compare, exchanging two sequences flips
/// how they compare.
pub proof fn law_lex_flip<T: PartialOrd>(a: Seq<T>, b: Seq<T>)
    requires
        forall|x: T, y: T| #[trigger] pair_lex(y, x) == flipped(pair_lex(x, y)),
    ensures
        seq_lex(b, a) == flipped(seq_lex(a, b)),
    decreases a.len(),
{
    if a.len() > 0 && b.len() > 0 {
        assert(pair_lex(b[0], a[0]) == flipped(pair_lex(a[0], b[0])));
        law_lex_flip(a.drop_first(), b.drop_first());
    }
}

/// Where every element compares equal to itself, a sequence is less than any longer
/// sequence that starts with it.
pub proof fn law_prefix_is_less<T: PartialOrd>(a: Seq<T>, b: Seq<T>)
    requires
        forall|i: int| 0 <= i < a.len() ==> pair_lex(#[trigger] a[i], a[i]) == LexOutcome::Equal,
        b.len() > 0,
    ensures
        seq_lex(a, a + b) == LexOutcome::Less,
    decreases a.len(),
{
    if a.len() > 0 {
        assert((a + b)[0] == a[0]);
        assert(pair_lex(a[0], a[0]) == LexOutcome::Equal);
        assert((a + b).drop_first() =~= a.drop_first() + b);
        assert forall|i: int| 0 <= i < a.drop_first().len() implies pair_lex(
            #[trigger] a.drop_first()[i],
            a.drop_first()[i],
        ) == LexOutcome::Equal by {
            assert(a.drop_first()[i] == a[i + 1]);
        }
        law_prefix_is_less(a.drop_first(), b);
    }
}

/// Whether the elements' total order follows its specification.
pub open spec fn totally_ordered_elems<T: Ord>() -> bool {
    T::obeys_cmp_spec()
}

/// How two lengths compare, as an `Ordering`.
pub open spec fn len_order(m: nat, n: nat) -> Ordering {
    if m < n {
        Ordering::Less
    } else if m == n {
        Ordering::Equal
    } else {
        Ordering::Greater
    }
}

/// Lexicographic comparison of two sequences under the total order of the elements.
pub open spec fn seq_total<T: Ord>(a: Seq<T>, b: Seq<T>) -> Ordering
    decreases a.len(),
{
    if a.len() == 0 || b.len() == 0 {
        len_order(a.len(), b.len())
    } else {
        match a[0].cmp_spec(&b[0]) {
            Ordering::Equal => seq_total(a.drop_first(), b.drop_first()),
            other => other,
        }
    }
}

/// Comparing totally from position `k` on: the pair at `k` decides unless it is equal.
pub proof fn lemma_total_step<T: Ord>(a: Seq<T>, b: Seq<T>, k: int)
    requires
        0 <= k < a.len(),
        0 <= k < b.len(),
    ensures
        seq_total(a.skip(k), b.skip(k)) == match a[k].cmp_spec(&b[k]) {
            Ordering::Equal => seq_total(a.skip(k + 1), b.skip(k + 1)),
            other => other,
        },
{
    assert(a.skip(k).drop_first() =~= a.skip(k + 1));
    assert(b.skip(k).drop_first() =~= b.skip(k + 1));
    assert(a.skip(k)[0] == a[k]);
    assert(b.skip(k)[0] == b[k]);
}

/// Comparing totally from the start is comparing the whole sequences.
pub proof fn lemma_total_start<T: Ord>(a: Seq<T>, b: Seq<T>)
    ensures
        seq_total(a.skip(0), b.skip(0)) == seq_total(a, b),
{
    assert(a.skip(0) =~= a);
    assert(b.skip(0) =~= b);
}

/// Compares two sequences lexicographically under the total order of the elements.
pub fn seqs_total<T: Ord, S: ElemSeq<T>, U: ElemSeq<T>>(a: &S, b: &U) -> (r: Ordering)
    ensures
        totally_ordered_elems::<T>() ==> r == seq_total(a.elems(), b.elems()),
{
    proof {
        lemma_total_start(a.elems(), b.elems());
    }
    let la = a.count();
    let lb = b.count();
    let n = if la < lb { la } else { lb };
    let mut i: usize = 0;
    let ghost mut k: int = 0;
    while i < n
        invariant
            k == i,
            la == a.elems().len(),
            lb == b.elems().len(),
            n <= la,
            n <= lb,
            n == la || n == lb,
            0 <= k <= n,
            totally_ordered_elems::<T>() ==> seq_total(a.elems(), b.elems()) == seq_total(
                a.elems().skip(k),
                b.elems().skip(k),
            ),
        decreases n - i,
    {
        let o = a.at(i).cmp(b.at(i));
        proof {
            lemma_total_step(a.elems(), b.elems(), k);
        }
        match o {
            Ordering::Equal => {},
            _ => {
                return o;
            },
        }
        i = i + 1;
        proof {
            k = k + 1;
        }
    }
    if la < lb {
        Ordering::Less
    } else if la == lb {
        Ordering::Equal
    } else {
        Ordering::Greater
    }
}

/// Where every element compares equal to itself, a sequence compares equal to itself
/// under the total order.
pub proof fn law_total_reflexive<T: Ord>(a: Seq<T>)
    requires
        forall|i: int| 0 <= i < a.len() ==> (#[trigger] a[i]).cmp_spec(&a[i]) == Ordering::Equal,
    ensures
        seq_total(a, a) == Ordering::Equal,
    decreases a.len(),
{
    if a.len() > 0 {
        assert(a[0].cmp_spec(&a[0]) == Ordering::Equal);
        assert forall|i: int| 0 <= i < a.drop_first().len() implies (
        #[trigger] a.drop_first()[i]).cmp_spec(&a.drop_first()[i]) == Ordering::Equal by {
            assert(a.drop_first()[i] == a[i + 1]);
        }
        law_total_reflexive(a.drop_first());
    }
}

/// Skipping pairs that compare equal leaves the lexicographic comparison unchanged.
pub proof fn lemma_lex_skip<T: PartialOrd>(a: Seq<T>, b: Seq<T>, i: int)
    requires
        0 <= i <= a.len(),
        i <= b.len(),
        forall|j: int| 0 <= j < i ==> pair_lex(#[trigger] a[j], b[j]) == LexOutcome::Equal,
    ensures
        seq_lex(a, b) == seq_lex(a.skip(i), b.skip(i)),
    decreases i,
{
    if i == 0 {
        lemma_lex_start(a, b);
    } else {
        lemma_lex_skip(a, b, i - 1);
        lemma_lex_step(a, b, i - 1);
        assert(pair_lex(a[i - 1], b[i - 1]) == LexOutcome::Equal);
    }
}

/// Under the partial order, the first pair of elements that does not compare equal
/// decides how two sequences compare.
pub proof fn law_lex_first_difference<T: PartialOrd>(a: Seq<T>, b: Seq<T>, i: int)
    requires
        0 <= i < a.len(),
        i < b.len(),
        forall|j: int|
            0 <= j < i ==> (#[trigger] a[j]).partial_cmp_spec(&b[j]) == Some(Ordering::Equal),
        a[i].partial_cmp_spec(&b[i]) != Some(Ordering::Equal),
    ensures
        outcome_order(seq_lex(a, b)) == a[i].partial_cmp_spec(&b[i]),
{
    assert forall|j: int| 0 <= j < i implies pair_lex(#[trigger] a[j], b[j]) == LexOutcome::Equal by {
        assert(a[j].partial_cmp_spec(&b[j]) == Some(Ordering::Equal));
    }
    lemma_lex_skip(a, b, i);
    lemma_lex_step(a, b, i);
}

/// Under the partial order, where every pair of elements up to the end of the shorter
/// sequence compares equal, the lengths decide: the shorter is less.
pub proof fn law_lex_common_prefix<T: PartialOrd>(a: Seq<T>, b: Seq<T>)
    requires
        forall|j: int|
            0 <= j < a.len() && j < b.len() ==> (#[trigger] a[j]).partial_cmp_spec(&b[j]) == Some(
                Ordering::Equal,
            ),
    ensures
        outcome_order(seq_lex(a, b)) == if a.len() < b.len() {
            Some(Ordering::Less)
        } else if a.len() == b.len() {
            Some(Ordering::Equal)
        } else {
            Some(Ordering::Greater)
        },
{
    let m = shorter_len(a, b);
    assert forall|j: int| 0 <= j < m implies pair_lex(#[trigger] a[j], b[j]) == LexOutcome::Equal by {
        assert(a[j].partial_cmp_spec(&b[j]) == Some(Ordering::Equal));
    }
    lemma_lex_skip(a, b, m);
    lemma_lex_end(a, b, m);
}

/// Skipping pairs that compare equal leaves the total comparison unchanged.
pub proof fn lemma_total_skip<T: Ord>(a: Seq<T>, b: Seq<T>, i: int)
    requires
        0 <= i <= a.len(),
        i <= b.len(),
        forall|j: int| 0 <= j < i ==> (#[trigger] a[j]).cmp_spec(&b[j]) == Ordering::Equal,
    ensures
        seq_total(a, b) == seq_total(a.skip(i), b.skip(i)),
    decreases i,
{
    if i == 0 {
        lemma_total_start(a, b);
    } else {
        lemma_total_skip(a, b, i - 1);
        lemma_total_step(a, b, i - 1);
        assert(a[i - 1].cmp_spec(&b[i - 1]) == Ordering::Equal);
    }
}

/// Under the total order, the first pair of elements that does not compare equal decides
/// how two sequences compare.
pub proof fn law_total_first_difference<T: Ord>(a: Seq<T>, b: Seq<T>, i: int)
    requires
        0 <= i < a.len(),
        i < b.len(),
        forall|j: int| 0 <= j < i ==> (#[trigger] a[j]).cmp_spec(&b[j]) == Ordering::Equal,
        a[i].cmp_spec(&b[i]) != Ordering::Equal,
    ensures
        seq_total(a, b) == a[i].cmp_spec(&b[i]),
{
    lemma_total_skip(a, b, i);
    lemma_total_step(a, b, i);
}

/// Under the total order, where every pair of elements up to the end of the shorter
/// sequence compares equal, the lengths decide: a proper prefix is less.
pub proof fn law_total_common_prefix<T: Ord>(a: Seq<T>, b: Seq<T>)
    requires
        forall|j: int|
            0 <= j < a.len() && j < b.len() ==> (#[trigger] a[j]).cmp_spec(&b[j]) == Ordering::Equal,
    ensures
        seq_total(a, b) == if a.len() < b.len() {
            Ordering::Less
        } else if a.len() == b.len() {
            Ordering::Equal
        } else {
            Ordering::Greater
        },
{
    let m = shorter_len(a, b);
    lemma_total_skip(a, b, m);
    assert(a.skip(m).len() == 0 || b.skip(m).len() == 0);
}

/// Under the total order, where every element compares equal to itself, a sequence is
/// less than any longer sequence that starts with it.
pub proof fn law_total_prefix_is_less<T: Ord>(a: Seq<T>, b: Seq<T>)
    requires
        forall|i: int| 0 <= i < a.len() ==> (#[trigger] a[i]).cmp_spec(&a[i]) == Ordering::Equal,
        b.len() > 0,
    ensures
        seq_total(a, a + b) == Ordering::Less,
{
    assert forall|j: int| 0 <= j < a.len() && j < (a + b).len() implies (#[trigger] a[j]).cmp_spec(
        &(a + b)[j],
    ) == Ordering::Equal by {
        assert((a + b)[j] == a[j]);
    }
    law_total_common_prefix(a, a + b);
}

} // verus!

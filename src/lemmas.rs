use crate::list::{clone_is_exact, lex_cmp, reversal_of, seq_eq, List};
use std::cmp::Ordering;
use vstd::prelude::*;
use vstd::std_specs::cmp::{PartialEqSpec, PartialOrdSpec};

verus! {

/// Every list equals itself, wherever its elements' `==` is reflexive.
pub proof fn lemma_eq_reflexive<T: PartialEqSpec>(l: List<T>)
    requires
        forall|a: T| #[trigger] a.eq_spec(&a),
    ensures
        seq_eq(l@, l@),
{
}

/// Equality of lists is equality of their elements, whatever nodes they were
/// built from, wherever the elements' `==` is equality of values.
pub proof fn lemma_eq_is_structural<T: PartialEqSpec>(a: List<T>, b: List<T>)
    requires
        forall|x: T, y: T| #[trigger] x.eq_spec(&y) <==> x == y,
    ensures
        seq_eq(a@, b@) <==> a@ == b@,
{
    if seq_eq(a@, b@) {
        assert(a@ =~= b@);
    }
}

/// Two lists that share a tail and differ in their heads are ordered as their
/// heads are.
pub proof fn lemma_cons_order<T: PartialOrdSpec>(x: T, y: T, t: List<T>)
    requires
        x.partial_cmp_spec(&y) == Some(Ordering::Less),
    ensures
        lex_cmp(seq![x] + t@, seq![y] + t@) == Some(Ordering::Less),
{
    let a = seq![x] + t@;
    let b = seq![y] + t@;
    assert(a[0] == x);
    assert(b[0] == y);
}

/// A list comes before every longer list that it is a prefix of, and after it
/// the other way round, wherever each element compares equal to itself.
pub proof fn lemma_prefix_order<T: PartialOrdSpec>(a: List<T>, b: List<T>)
    requires
        forall|x: T| #[trigger] x.partial_cmp_spec(&x) == Some(Ordering::Equal),
        a@.len() < b@.len(),
        a@ == b@.take(a@.len() as int),
    ensures
        lex_cmp(a@, b@) == Some(Ordering::Less),
        lex_cmp(b@, a@) == Some(Ordering::Greater),
{
    lemma_prefix_order_seq(a@, b@);
}

proof fn lemma_prefix_order_seq<T: PartialOrdSpec>(a: Seq<T>, b: Seq<T>)
    requires
        forall|x: T| #[trigger] x.partial_cmp_spec(&x) == Some(Ordering::Equal),
        a.len() < b.len(),
        a == b.take(a.len() as int),
    ensures
        lex_cmp(a, b) == Some(Ordering::Less),
        lex_cmp(b, a) == Some(Ordering::Greater),
    decreases a.len(),
{
    if a.len() > 0 {
        assert(a[0] == b[0]);
        assert(a[0].partial_cmp_spec(&a[0]) == Some(Ordering::Equal));
        assert(a.drop_first() =~= b.drop_first().take(a.len() - 1));
        lemma_prefix_order_seq(a.drop_first(), b.drop_first());
    }
}

/// Reversing a list twice gives back its elements, wherever cloning an
/// element gives an equal value; a reversal equals the list exactly where the
/// list is a palindrome, as every list of at most one element is.
pub proof fn lemma_reverse_involution<T: Clone>(l: List<T>, r: List<T>, rr: List<T>)
    requires
        clone_is_exact::<T>(),
        reversal_of(l@, r@),
        reversal_of(r@, rr@),
    ensures
        rr@ == l@,
        r@ == l@ <==> l@ == l@.reverse(),
        l@.len() <= 1 ==> r@ == l@,
{
    assert forall|i: int| 0 <= i < l@.len() implies rr@[i] == l@[i] by {
        let j = r@.len() - 1 - i;
        assert(cloned(r@[j], rr@[i]));
        assert(cloned(l@[l@.len() - 1 - j], r@[j]));
    }
    assert(rr@ =~= l@);
    assert forall|i: int| 0 <= i < l@.len() implies r@[i] == l@.reverse()[i] by {
        assert(cloned(l@[l@.len() - 1 - i], r@[i]));
    }
    assert(r@ =~= l@.reverse());
    if l@.len() <= 1 {
        assert(l@.reverse() =~= l@);
    }
}

/// `len` counts exactly the elements that `iter` hands out.
pub proof fn lemma_len_matches_iter<T>(l: List<T>, n: usize, items: Seq<&T>)
    requires
        n == l@.len(),
        items.len() == l@.len(),
    ensures
        n == items.len(),
{
}

/// A list built from a sequence hands its items out in their order.
pub proof fn lemma_from_sequence_order<T>(s: Seq<T>, l: List<T>, items: Seq<&T>)
    requires
        l@ == s,
        items.len() == l@.len(),
        forall|i: int| 0 <= i < items.len() ==> *items[i] == l@[i],
    ensures
        items.len() == s.len(),
        forall|i: int| 0 <= i < s.len() ==> *items[i] == s[i],
{
}

/// The default list equals the empty list.
pub proof fn lemma_default_is_nil<T: PartialEqSpec>(d: List<T>, e: List<T>)
    requires
        d@ == Seq::<T>::empty(),
        e@ == Seq::<T>::empty(),
    ensures
        seq_eq(d@, e@),
        d@ == e@,
{
}

} // verus!

//! The order and conservation laws of draining a sequence from both ends.
//!
//! A drain pattern records the direction of each successive draw: `true`
//! draws from the front, `false` from the back. [`drained`] is the sequence
//! of elements such a drain yields, in the order it yields them;
//! [`left_over`] is what it still owes. A front step is exactly what
//! [`crate::IntoIter::next`] promises (the head is yielded and the
//! remainder is the view minus its first element), a back step exactly what
//! [`crate::IntoIter::next_back`] promises, so these two functions describe
//! every interleaving of calls on an iterator whose view starts at `elems`.

use vstd::prelude::*;
use vstd::multiset::Multiset;
use vstd::seq_lib::lemma_multiset_commutative;
use vstd::seq_lib::group_to_multiset_ensures;

verus! {

/// The elements yielded, in yield order, when a sequence starting as
/// `elems` is drained by the successive draws of `pattern`; draws past
/// exhaustion yield nothing.
pub open spec fn drained<T>(elems: Seq<T>, pattern: Seq<bool>) -> Seq<T>
    decreases pattern.len(),
{
    if pattern.len() == 0 || elems.len() == 0 {
        Seq::empty()
    } else if pattern[0] {
        seq![elems[0]] + drained(elems.drop_first(), pattern.drop_first())
    } else {
        seq![elems.last()] + drained(elems.drop_last(), pattern.drop_first())
    }
}

/// The elements still owed after a sequence starting as `elems` is drained
/// by the successive draws of `pattern`.
pub open spec fn left_over<T>(elems: Seq<T>, pattern: Seq<bool>) -> Seq<T>
    decreases pattern.len(),
{
    if pattern.len() == 0 || elems.len() == 0 {
        elems
    } else if pattern[0] {
        left_over(elems.drop_first(), pattern.drop_first())
    } else {
        left_over(elems.drop_last(), pattern.drop_first())
    }
}

/// Draining fully forward yields the elements in their original order,
/// each exactly once.
pub proof fn lemma_drain_forward<T>(elems: Seq<T>)
    ensures
        drained(elems, Seq::new(elems.len(), |i: int| true)) == elems,
    decreases elems.len(),
{
    let pattern = Seq::new(elems.len(), |i: int| true);
    if elems.len() == 0 {
        assert(drained(elems, pattern) =~= elems);
    } else {
        lemma_drain_forward(elems.drop_first());
        assert(pattern.drop_first() =~= Seq::new(elems.drop_first().len(), |i: int| true));
        assert(seq![elems[0]] + elems.drop_first() =~= elems);
    }
}

/// Draining fully backward yields the elements in reverse order, each
/// exactly once.
pub proof fn lemma_drain_backward<T>(elems: Seq<T>)
    ensures
        drained(elems, Seq::new(elems.len(), |i: int| false)) == elems.reverse(),
    decreases elems.len(),
{
    let pattern = Seq::new(elems.len(), |i: int| false);
    if elems.len() == 0 {
        assert(drained(elems, pattern) =~= elems.reverse());
    } else {
        lemma_drain_backward(elems.drop_last());
        assert(pattern.drop_first() =~= Seq::new(elems.drop_last().len(), |i: int| false));
        assert(seq![elems.last()] + elems.drop_last().reverse() =~= elems.reverse());
    }
}

/// However the directions of the draws interleave, every element is at
/// every moment either already yielded or still owed, never both and never
/// neither: the yielded and owed elements together are exactly the
/// original elements. In particular nothing is yielded twice, nothing is
/// skipped, and nothing is both yielded and left for the cleanup pass to
/// destroy.
pub proof fn lemma_drain_conservation<T>(elems: Seq<T>, pattern: Seq<bool>)
    ensures
        drained(elems, pattern).to_multiset().add(left_over(elems, pattern).to_multiset())
            == elems.to_multiset(),
    decreases pattern.len(),
{
    broadcast use group_to_multiset_ensures;

    if pattern.len() == 0 || elems.len() == 0 {
        assert(drained(elems, pattern).to_multiset().add(
            left_over(elems, pattern).to_multiset(),
        ) =~= elems.to_multiset());
    } else if pattern[0] {
        lemma_drain_conservation(elems.drop_first(), pattern.drop_first());
        lemma_multiset_commutative(
            seq![elems[0]],
            drained(elems.drop_first(), pattern.drop_first()),
        );
        assert(seq![elems[0]] + elems.drop_first() =~= elems);
        lemma_multiset_commutative(seq![elems[0]], elems.drop_first());
        assert(drained(elems, pattern).to_multiset().add(
            left_over(elems, pattern).to_multiset(),
        ) =~= elems.to_multiset());
    } else {
        lemma_drain_conservation(elems.drop_last(), pattern.drop_first());
        lemma_multiset_commutative(
            seq![elems.last()],
            drained(elems.drop_last(), pattern.drop_first()),
        );
        assert(elems.drop_last() + seq![elems.last()] =~= elems);
        lemma_multiset_commutative(elems.drop_last(), seq![elems.last()]);
        assert(drained(elems, pattern).to_multiset().add(
            left_over(elems, pattern).to_multiset(),
        ) =~= elems.to_multiset());
    }
}

/// A drain of at least as many draws as there are elements yields all of
/// them: exactly the original elements, each exactly once, and leaves
/// nothing owed.
pub proof fn lemma_drain_total<T>(elems: Seq<T>, pattern: Seq<bool>)
    requires
        pattern.len() >= elems.len(),
    ensures
        drained(elems, pattern).to_multiset() == elems.to_multiset(),
        drained(elems, pattern).len() == elems.len(),
        left_over(elems, pattern).len() == 0,
    decreases pattern.len(),
{
    broadcast use group_to_multiset_ensures;

    lemma_drain_counts(elems, pattern);
    lemma_drain_conservation(elems, pattern);
    assert(left_over(elems, pattern).to_multiset() =~= Multiset::<T>::empty());
    assert(drained(elems, pattern).to_multiset().add(Multiset::<T>::empty())
        =~= drained(elems, pattern).to_multiset());
}

/// Each draw before exhaustion yields exactly one element, and none after:
/// a drain of `k` draws yields `min(k, n)` elements of the original `n`,
/// and what is yielded plus what is owed always accounts for all `n`.
pub proof fn lemma_drain_counts<T>(elems: Seq<T>, pattern: Seq<bool>)
    ensures
        drained(elems, pattern).len() == if pattern.len() <= elems.len() {
            pattern.len()
        } else {
            elems.len()
        },
        drained(elems, pattern).len() + left_over(elems, pattern).len() == elems.len(),
    decreases pattern.len(),
{
    if pattern.len() == 0 || elems.len() == 0 {
    } else if pattern[0] {
        lemma_drain_counts(elems.drop_first(), pattern.drop_first());
    } else {
        lemma_drain_counts(elems.drop_last(), pattern.drop_first());
    }
}

} // verus!


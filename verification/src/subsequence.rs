//! Order-preserving selections from a sequence.

use vstd::prelude::*;

verus! {

/// `at` maps each position of `sub` to a position of `full` that holds the
/// same element, and keeps the positions in order.
pub open spec fn embeds<T>(sub: Seq<T>, full: Seq<T>, at: Seq<int>) -> bool {
    &&& at.len() == sub.len()
    &&& forall|k: int|
        0 <= k < at.len() ==> 0 <= #[trigger] at[k] < full.len() && full[at[k]] == sub[k]
    &&& forall|j: int, k: int| 0 <= j < k < at.len() ==> at[j] < at[k]
}

/// `sub` can be obtained from `full` by leaving elements out.
pub open spec fn is_subsequence<T>(sub: Seq<T>, full: Seq<T>) -> bool {
    exists|at: Seq<int>| embeds(sub, full, at)
}

/// `at` embeds `sub` in `full` and hits exactly the positions of `full`
/// whose element satisfies `pred`.
pub open spec fn selects<T>(sub: Seq<T>, full: Seq<T>, at: Seq<int>, pred: spec_fn(T) -> bool) -> bool {
    &&& embeds(sub, full, at)
    &&& forall|i: int| 0 <= i < full.len() ==> (#[trigger] at.contains(i) <==> pred(full[i]))
}

/// Every sequence is a subsequence of itself.
pub proof fn lemma_subsequence_refl<T>(s: Seq<T>)
    ensures
        is_subsequence(s, s),
{
    let at = Seq::new(s.len(), |k: int| k);
    assert(embeds(s, s, at));
}

/// Filtering keeps, in their given order, exactly the elements that
/// satisfy the predicate: each position of the input that satisfies it is
/// taken once, and no other.
pub proof fn lemma_filter_selects<T>(s: Seq<T>, pred: spec_fn(T) -> bool) -> (at: Seq<int>)
    ensures
        selects(s.filter(pred), s, at, pred),
    decreases s.len(),
{
    reveal(Seq::filter);
    if s.len() == 0 {
        let at = Seq::<int>::empty();
        assert(selects(s.filter(pred), s, at, pred));
        at
    } else {
        let front = s.drop_last();
        let last = s.len() - 1;
        let front_at = lemma_filter_selects(front, pred);
        assert forall|k: int| 0 <= k < front_at.len() implies 0 <= #[trigger] front_at[k] < last
            && s[front_at[k]] == front.filter(pred)[k] by {
            assert(front[front_at[k]] == s[front_at[k]]);
        }
        if pred(s.last()) {
            let at = front_at.push(last);
            assert forall|i: int| 0 <= i < s.len() implies (#[trigger] at.contains(i) <==> pred(
                s[i],
            )) by {
                if i == last {
                    assert(at[at.len() - 1] == i);
                } else {
                    assert(front[i] == s[i]);
                    if front_at.contains(i) {
                        let k = choose|k: int| 0 <= k < front_at.len() && front_at[k] == i;
                        assert(at[k] == i);
                    }
                    if at.contains(i) {
                        let k = choose|k: int| 0 <= k < at.len() && at[k] == i;
                        assert(front_at[k] == i);
                    }
                }
            }
            assert(selects(s.filter(pred), s, at, pred));
            at
        } else {
            let at = front_at;
            assert forall|i: int| 0 <= i < s.len() implies (#[trigger] at.contains(i) <==> pred(
                s[i],
            )) by {
                if i == last {
                    if at.contains(i) {
                        let k = choose|k: int| 0 <= k < at.len() && at[k] == i;
                        assert(front_at[k] < last);
                    }
                } else {
                    assert(front[i] == s[i]);
                }
            }
            assert(selects(s.filter(pred), s, at, pred));
            at
        }
    }
}

/// A filter that every element passes changes nothing.
pub proof fn lemma_filter_keeps_all<T>(s: Seq<T>, pred: spec_fn(T) -> bool)
    requires
        forall|i: int| 0 <= i < s.len() ==> pred(#[trigger] s[i]),
    ensures
        s.filter(pred) == s,
    decreases s.len(),
{
    reveal(Seq::filter);
    if s.len() > 0 {
        let front = s.drop_last();
        assert forall|i: int| 0 <= i < front.len() implies pred(#[trigger] front[i]) by {
            assert(front[i] == s[i]);
        }
        lemma_filter_keeps_all(front, pred);
        assert(front.push(s.last()) == s);
    }
}

} // verus!

//! Facts about `Seq::remove_value` that the presence and queue proofs use.

use vstd::prelude::*;

verus! {

/// What removing the first occurrence of a value leaves behind: on a
/// duplicate-free sequence the value itself is gone, everything else stays,
/// and the sequence is still duplicate-free.
pub proof fn lemma_remove_value_props<A>(s: Seq<A>, v: A)
    ensures
        !s.contains(v) ==> s.remove_value(v) == s,
        s.contains(v) ==> s.remove_value(v).len() == s.len() - 1,
        !s.contains(v) ==> s.remove_value(v).len() == s.len(),
        forall|w: A| w != v && #[trigger] s.remove_value(v).contains(w) ==> s.contains(w),
        s.no_duplicates() ==> !s.remove_value(v).contains(v),
        s.no_duplicates() ==> s.remove_value(v).no_duplicates(),
        s.no_duplicates() ==> forall|w: A|
            w != v && #[trigger] s.contains(w) ==> s.remove_value(v).contains(w),
{
    s.index_of_first_ensures(v);
    match s.index_of_first(v) {
        Option::None => {
        },
        Option::Some(i) => {
            let out = s.remove(i);
            s.remove_ensures(i);
            assert forall|w: A| w != v && #[trigger] out.contains(w) implies s.contains(w) by {
                let j = choose|j: int| 0 <= j < out.len() && out[j] == w;
                if j < i {
                    assert(s[j] == w);
                } else {
                    assert(s[j + 1] == w);
                }
            };
            if s.no_duplicates() {
                assert forall|j: int| 0 <= j < out.len() implies out[j] != v by {
                    if j < i {
                        assert(out[j] == s[j]);
                    } else {
                        assert(out[j] == s[j + 1]);
                    }
                };
                if out.contains(v) {
                    let j = choose|j: int| 0 <= j < out.len() && out[j] == v;
                    assert(out[j] != v);
                }
                assert forall|p: int, q: int|
                    0 <= p < out.len() && 0 <= q < out.len() && p != q implies out[p] != out[q] by {
                    let p0: int = if p < i { p } else { p + 1 };
                    let q0: int = if q < i { q } else { q + 1 };
                    assert(out[p] == s[p0] && out[q] == s[q0]);
                };
                assert forall|w: A| w != v && #[trigger] s.contains(w) implies out.contains(w) by {
                    let j = choose|j: int| 0 <= j < s.len() && s[j] == w;
                    if j < i {
                        assert(out[j] == w);
                    } else {
                        assert(j != i);
                        assert(out[j - 1] == s[j]);
                    }
                };
            }
        },
    }
}

/// Everything a filter keeps was in the sequence it was taken from.
pub proof fn lemma_filter_sub<A>(s: Seq<A>, pred: spec_fn(A) -> bool)
    ensures
        forall|i: int| 0 <= i < s.filter(pred).len() ==> s.contains(#[trigger] s.filter(pred)[i]),
    decreases s.len(),
{
    reveal(Seq::filter);
    if s.len() > 0 {
        let prefix = s.drop_last();
        lemma_filter_sub(prefix, pred);
        assert forall|i: int| 0 <= i < s.filter(pred).len() implies s.contains(
            #[trigger] s.filter(pred)[i],
        ) by {
            if i < prefix.filter(pred).len() {
                assert(s.filter(pred)[i] == prefix.filter(pred)[i]);
                let j = choose|j: int| 0 <= j < prefix.len() && prefix[j] == prefix.filter(pred)[i];
                assert(s[j] == s.filter(pred)[i]);
            } else {
                assert(s.filter(pred)[i] == s.last());
                assert(s[s.len() - 1] == s.last());
            }
        };
    }
}

/// A filter whose predicate holds of every element keeps the whole sequence.
pub proof fn lemma_filter_all<A>(s: Seq<A>, pred: spec_fn(A) -> bool)
    requires
        forall|i: int| 0 <= i < s.len() ==> pred(#[trigger] s[i]),
    ensures
        s.filter(pred) == s,
    decreases s.len(),
{
    reveal(Seq::filter);
    if s.len() > 0 {
        let prefix = s.drop_last();
        assert(forall|i: int| 0 <= i < prefix.len() ==> pred(#[trigger] prefix[i]));
        lemma_filter_all(prefix, pred);
        assert(pred(s.last()));
        assert(prefix.push(s.last()) =~= s);
    }
}

/// A filter of a duplicate-free sequence is duplicate-free.
pub proof fn lemma_filter_no_dup<A>(s: Seq<A>, pred: spec_fn(A) -> bool)
    requires
        s.no_duplicates(),
    ensures
        s.filter(pred).no_duplicates(),
    decreases s.len(),
{
    reveal(Seq::filter);
    if s.len() > 0 {
        let prefix = s.drop_last();
        assert(prefix.no_duplicates());
        lemma_filter_no_dup(prefix, pred);
        if pred(s.last()) {
            lemma_filter_sub(prefix, pred);
            let out = prefix.filter(pred).push(s.last());
            assert forall|p: int, q: int|
                0 <= p < out.len() && 0 <= q < out.len() && p != q implies out[p] != out[q] by {
                if p < out.len() - 1 && q == out.len() - 1 {
                    assert(prefix.contains(out[p]));
                    let j = choose|j: int| 0 <= j < prefix.len() && prefix[j] == out[p];
                    assert(s[j] == out[p]);
                    assert(s[j] != s.last());
                } else if q < out.len() - 1 && p == out.len() - 1 {
                    assert(prefix.contains(out[q]));
                    let j = choose|j: int| 0 <= j < prefix.len() && prefix[j] == out[q];
                    assert(s[j] == out[q]);
                    assert(s[j] != s.last());
                }
            };
        }
    }
}

/// A sequence extended by one element filters to the old filtered sequence,
/// plus the new element when it satisfies the predicate.
pub proof fn lemma_filter_push<A>(s: Seq<A>, x: A, pred: spec_fn(A) -> bool)
    ensures
        pred(x) ==> s.push(x).filter(pred) == s.filter(pred).push(x),
        !pred(x) ==> s.push(x).filter(pred) == s.filter(pred),
{
    reveal(Seq::filter);
    assert(s.push(x).drop_last() =~= s);
    assert(s.push(x).last() == x);
}

} // verus!

//! A stable sort for lists whose items have a rank.

use vstd::prelude::*;

verus! {

/// Items that can be put in order. `before(a, b)` says that `a` may stand in
/// front of `b`; it holds both ways round for items of equal rank.
pub trait Ranked: View + Sized {
    /// Whether an item that looks like `a` may stand in front of one that
    /// looks like `b`.
    spec fn before(a: Self::V, b: Self::V) -> bool;

    /// Of two items, one may stand in front of the other.
    proof fn lemma_before_total(a: Self::V, b: Self::V)
        ensures
            Self::before(a, b) || Self::before(b, a),
    ;

    /// What may stand in front of an item may stand in front of all that the
    /// item may stand in front of.
    proof fn lemma_before_transitive(a: Self::V, b: Self::V, c: Self::V)
        requires
            Self::before(a, b),
            Self::before(b, c),
        ensures
            Self::before(a, c),
    ;

    /// Whether this item may stand in front of `other`.
    fn is_before(&self, other: &Self) -> (r: bool)
        ensures
            r == Self::before(self@, other@),
    ;
}

/// What each of `items` is to the contracts.
pub open spec fn views<T: View>(items: Seq<T>) -> Seq<T::V> {
    Seq::new(items.len(), |i: int| items[i]@)
}

/// Whether every item of `items` may stand in front of all that follow it.
pub open spec fn is_sorted<T: Ranked>(items: Seq<T::V>) -> bool {
    forall|i: int, j: int| 0 <= i < j < items.len() ==> T::before(items[i], items[j])
}

/// `sorted` with `x` put in behind every item of its own or of a smaller rank.
pub open spec fn inserted<T: Ranked>(sorted: Seq<T::V>, x: T::V) -> Seq<T::V>
    decreases sorted.len(),
{
    if sorted.len() == 0 {
        seq![x]
    } else if T::before(sorted[0], x) {
        seq![sorted[0]] + inserted::<T>(sorted.drop_first(), x)
    } else {
        seq![x] + sorted
    }
}

/// `items` in order of rank, items of equal rank in the order in which they
/// stand in `items`.
pub open spec fn stable_sorted<T: Ranked>(items: Seq<T::V>) -> Seq<T::V>
    decreases items.len(),
{
    if items.len() == 0 {
        Seq::empty()
    } else {
        inserted::<T>(stable_sorted::<T>(items.drop_last()), items.last())
    }
}

/// Putting an item in adds it and nothing else.
pub proof fn lemma_inserted_is_permutation<T: Ranked>(sorted: Seq<T::V>, x: T::V)
    ensures
        inserted::<T>(sorted, x).len() == sorted.len() + 1,
        inserted::<T>(sorted, x).to_multiset() == sorted.to_multiset().insert(x),
    decreases sorted.len(),
{
    broadcast use vstd::seq_lib::group_to_multiset_ensures;

    if sorted.len() == 0 {
        assert(seq![x] =~= Seq::<T::V>::empty().push(x));
        assert(sorted =~= Seq::empty());
    } else if T::before(sorted[0], x) {
        let rest = sorted.drop_first();
        lemma_inserted_is_permutation::<T>(rest, x);
        assert(sorted =~= seq![sorted[0]] + rest);
        vstd::seq_lib::lemma_multiset_commutative(seq![sorted[0]], inserted::<T>(rest, x));
        vstd::seq_lib::lemma_multiset_commutative(seq![sorted[0]], rest);
        assert(inserted::<T>(sorted, x).to_multiset() =~= sorted.to_multiset().insert(x));
    } else {
        vstd::seq_lib::lemma_multiset_commutative(seq![x], sorted);
        assert(seq![x] =~= Seq::<T::V>::empty().push(x));
        assert(inserted::<T>(sorted, x).to_multiset() =~= sorted.to_multiset().insert(x));
    }
}

/// Every item of `inserted(sorted, x)` is `x` or an item of `sorted`.
proof fn lemma_inserted_members<T: Ranked>(sorted: Seq<T::V>, x: T::V, k: int)
    requires
        0 <= k < inserted::<T>(sorted, x).len(),
    ensures
        inserted::<T>(sorted, x)[k] == x || sorted.contains(inserted::<T>(sorted, x)[k]),
    decreases sorted.len(),
{
    if sorted.len() == 0 {
    } else if T::before(sorted[0], x) {
        if k == 0 {
            assert(sorted[0] == inserted::<T>(sorted, x)[0]);
        } else {
            let rest = sorted.drop_first();
            lemma_inserted_is_permutation::<T>(rest, x);
            lemma_inserted_members::<T>(rest, x, k - 1);
            let item = inserted::<T>(rest, x)[k - 1];
            if rest.contains(item) {
                let j = choose|j: int| 0 <= j < rest.len() && rest[j] == item;
                assert(sorted[j + 1] == item);
            }
        }
    } else {
        if k > 0 {
            assert(sorted[k - 1] == inserted::<T>(sorted, x)[k]);
        }
    }
}

/// Putting an item into a sorted list leaves the list sorted.
pub proof fn lemma_inserted_is_sorted<T: Ranked>(sorted: Seq<T::V>, x: T::V)
    requires
        is_sorted::<T>(sorted),
    ensures
        is_sorted::<T>(inserted::<T>(sorted, x)),
    decreases sorted.len(),
{
    let out = inserted::<T>(sorted, x);
    if sorted.len() == 0 {
    } else if T::before(sorted[0], x) {
        let rest = sorted.drop_first();
        assert(is_sorted::<T>(rest)) by {
            assert forall|i: int, j: int| 0 <= i < j < rest.len() implies T::before(
                rest[i],
                rest[j],
            ) by {
                assert(T::before(sorted[i + 1], sorted[j + 1]));
            }
        }
        lemma_inserted_is_sorted::<T>(rest, x);
        lemma_inserted_is_permutation::<T>(rest, x);
        let tail = inserted::<T>(rest, x);
        assert forall|i: int, j: int| 0 <= i < j < out.len() implies T::before(out[i], out[j]) by {
            if i == 0 {
                lemma_inserted_members::<T>(rest, x, j - 1);
                let item = tail[j - 1];
                if item != x {
                    let k = choose|k: int| 0 <= k < rest.len() && rest[k] == item;
                    assert(T::before(sorted[0], sorted[k + 1]));
                }
            } else {
                assert(T::before(tail[i - 1], tail[j - 1]));
            }
        }
    } else {
        T::lemma_before_total(sorted[0], x);
        assert forall|i: int, j: int| 0 <= i < j < out.len() implies T::before(out[i], out[j]) by {
            if i == 0 {
                if j > 1 {
                    assert(T::before(sorted[0], sorted[j - 1]));
                    T::lemma_before_transitive(x, sorted[0], sorted[j - 1]);
                }
            } else {
                assert(T::before(sorted[i - 1], sorted[j - 1]));
            }
        }
    }
}

/// A sorted list is in order of rank.
pub proof fn lemma_stable_sorted_is_sorted<T: Ranked>(items: Seq<T::V>)
    ensures
        is_sorted::<T>(stable_sorted::<T>(items)),
    decreases items.len(),
{
    if items.len() > 0 {
        lemma_stable_sorted_is_sorted::<T>(items.drop_last());
        lemma_inserted_is_sorted::<T>(stable_sorted::<T>(items.drop_last()), items.last());
    }
}

/// Sorting neither loses nor adds an item.
pub proof fn lemma_stable_sorted_is_permutation<T: Ranked>(items: Seq<T::V>)
    ensures
        stable_sorted::<T>(items).len() == items.len(),
        stable_sorted::<T>(items).to_multiset() == items.to_multiset(),
    decreases items.len(),
{
    broadcast use vstd::seq_lib::group_to_multiset_ensures;

    if items.len() > 0 {
        lemma_stable_sorted_is_permutation::<T>(items.drop_last());
        lemma_inserted_is_permutation::<T>(stable_sorted::<T>(items.drop_last()), items.last());
        assert(items =~= items.drop_last().push(items.last()));
    } else {
        assert(items =~= Seq::empty());
    }
}

/// Where the first `p` items of a sorted list may stand in front of `x` and the
/// next one may not, `x` is put in at `p`.
proof fn lemma_inserted_at<T: Ranked>(sorted: Seq<T::V>, x: T::V, p: int)
    requires
        0 <= p <= sorted.len(),
        forall|i: int| 0 <= i < p ==> T::before(sorted[i], x),
        p < sorted.len() ==> !T::before(sorted[p], x),
    ensures
        inserted::<T>(sorted, x) == sorted.insert(p, x),
    decreases sorted.len(),
{
    if sorted.len() == 0 {
        assert(inserted::<T>(sorted, x) =~= sorted.insert(p, x));
    } else if p == 0 {
        assert(inserted::<T>(sorted, x) =~= sorted.insert(p, x));
    } else {
        let rest = sorted.drop_first();
        assert forall|i: int| 0 <= i < p - 1 implies T::before(rest[i], x) by {
            assert(T::before(sorted[i + 1], x));
        }
        lemma_inserted_at::<T>(rest, x, p - 1);
        assert(seq![sorted[0]] + rest.insert(p - 1, x) =~= sorted.insert(p, x));
    }
}

/// Whether `apart` holds, both ways round, of every two items of `items` that
/// stand at different places.
pub open spec fn pairwise<V>(items: Seq<V>, apart: spec_fn(V, V) -> bool) -> bool {
    forall|i: int, j: int|
        0 <= i < j < items.len() ==> apart(items[i], items[j]) && apart(items[j], items[i])
}

/// Putting in an item that is apart from all items of a list keeps the items
/// of the list pairwise apart.
proof fn lemma_inserted_keeps_pairwise<T: Ranked>(
    sorted: Seq<T::V>,
    x: T::V,
    apart: spec_fn(T::V, T::V) -> bool,
)
    requires
        pairwise(sorted, apart),
        forall|i: int| 0 <= i < sorted.len() ==> apart(sorted[i], x) && apart(x, sorted[i]),
    ensures
        pairwise(inserted::<T>(sorted, x), apart),
    decreases sorted.len(),
{
    let out = inserted::<T>(sorted, x);
    if sorted.len() == 0 {
    } else if T::before(sorted[0], x) {
        let rest = sorted.drop_first();
        assert(pairwise(rest, apart)) by {
            assert forall|i: int, j: int| 0 <= i < j < rest.len() implies apart(rest[i], rest[j])
                && apart(rest[j], rest[i]) by {
                assert(apart(sorted[i + 1], sorted[j + 1]) && apart(sorted[j + 1], sorted[i + 1]));
            }
        }
        assert forall|i: int| 0 <= i < rest.len() implies apart(rest[i], x) && apart(
            x,
            rest[i],
        ) by {
            assert(apart(sorted[i + 1], x) && apart(x, sorted[i + 1]));
        }
        lemma_inserted_keeps_pairwise::<T>(rest, x, apart);
        lemma_inserted_is_permutation::<T>(rest, x);
        let tail = inserted::<T>(rest, x);
        assert forall|i: int, j: int| 0 <= i < j < out.len() implies apart(out[i], out[j])
            && apart(out[j], out[i]) by {
            if i == 0 {
                lemma_inserted_members::<T>(rest, x, j - 1);
                let item = tail[j - 1];
                if item != x {
                    let k = choose|k: int| 0 <= k < rest.len() && rest[k] == item;
                    assert(apart(sorted[0], sorted[k + 1]) && apart(sorted[k + 1], sorted[0]));
                } else {
                    assert(apart(sorted[0], x) && apart(x, sorted[0]));
                }
            } else {
                assert(apart(tail[i - 1], tail[j - 1]) && apart(tail[j - 1], tail[i - 1]));
            }
        }
    } else {
        assert forall|i: int, j: int| 0 <= i < j < out.len() implies apart(out[i], out[j])
            && apart(out[j], out[i]) by {
            if i == 0 {
                assert(apart(sorted[j - 1], x) && apart(x, sorted[j - 1]));
            } else {
                assert(apart(sorted[i - 1], sorted[j - 1]) && apart(sorted[j - 1], sorted[i - 1]));
            }
        }
    }
}

/// Sorting keeps the items of a list pairwise apart: what holds of every two
/// items before holds of every two items after.
pub proof fn lemma_stable_sorted_keeps_pairwise<T: Ranked>(
    items: Seq<T::V>,
    apart: spec_fn(T::V, T::V) -> bool,
)
    requires
        pairwise(items, apart),
    ensures
        pairwise(stable_sorted::<T>(items), apart),
    decreases items.len(),
{
    broadcast use vstd::seq_lib::group_to_multiset_ensures;

    if items.len() > 0 {
        let front = items.drop_last();
        let last = items.last();
        assert(pairwise(front, apart)) by {
            assert forall|i: int, j: int| 0 <= i < j < front.len() implies apart(
                front[i],
                front[j],
            ) && apart(front[j], front[i]) by {
                assert(apart(items[i], items[j]) && apart(items[j], items[i]));
            }
        }
        lemma_stable_sorted_keeps_pairwise::<T>(front, apart);
        lemma_stable_sorted_is_permutation::<T>(front);
        let sorted = stable_sorted::<T>(front);
        assert forall|i: int| 0 <= i < sorted.len() implies apart(sorted[i], last) && apart(
            last,
            sorted[i],
        ) by {
            assert(sorted.to_multiset().count(sorted[i]) > 0);
            assert(front.contains(sorted[i]));
            let k = choose|k: int| 0 <= k < front.len() && front[k] == sorted[i];
            assert(apart(items[k], items[items.len() - 1]) && apart(
                items[items.len() - 1],
                items[k],
            ));
        }
        lemma_inserted_keeps_pairwise::<T>(sorted, last, apart);
    }
}

/// A list that is in order already stays as it is.
pub proof fn lemma_sorted_stays<T: Ranked>(items: Seq<T::V>)
    requires
        is_sorted::<T>(items),
    ensures
        stable_sorted::<T>(items) == items,
    decreases items.len(),
{
    if items.len() > 0 {
        let front = items.drop_last();
        assert(is_sorted::<T>(front)) by {
            assert forall|i: int, j: int| 0 <= i < j < front.len() implies T::before(
                front[i],
                front[j],
            ) by {
                assert(T::before(items[i], items[j]));
            }
        }
        lemma_sorted_stays::<T>(front);
        assert forall|i: int| 0 <= i < front.len() implies T::before(front[i], items.last()) by {
            assert(T::before(items[i], items[items.len() - 1]));
        }
        lemma_inserted_at::<T>(front, items.last(), front.len() as int);
        assert(front.insert(front.len() as int, items.last()) =~= items);
    } else {
        assert(items =~= Seq::empty());
    }
}

/// Sorts `items` by rank. Items of equal rank keep the order they had.
pub fn stable_sort<T: Ranked>(items: Vec<T>) -> (out: Vec<T>)
    ensures
        views(out@) == stable_sorted::<T>(views(items@)),
{
    let ghost all = views(items@);
    let mut out: Vec<T> = Vec::new();
    let ghost mut seen: int = 0;
    assert(all.take(0) =~= Seq::empty());
    assert(views(out@) =~= Seq::empty());
    for item in it: items
        invariant
            views(it.seq()) == all,
            seen == it.index(),
            views(out@) == stable_sorted::<T>(all.take(seen)),
    {
        let ghost sorted = views(out@);
        let mut p: usize = 0;
        while p < out.len() && out[p].is_before(&item)
            invariant
                p <= out.len(),
                views(out@) == sorted,
                forall|i: int| 0 <= i < p ==> T::before(sorted[i], item@),
            decreases out.len() - p,
        {
            p += 1;
        }
        proof {
            lemma_inserted_at::<T>(sorted, item@, p as int);
            assert(all.take(seen + 1).drop_last() =~= all.take(seen));
            assert(all.take(seen + 1).last() == item@);
        }
        out.insert(p, item);
        assert(views(out@) =~= sorted.insert(p as int, item@));
        proof {
            seen = seen + 1;
        }
    }
    assert(all.take(seen) =~= all);
    out
}

} // verus!

//! Putting elements in an order that keeps equals as they were.
use vstd::prelude::*;

verus! {

/// `x` put into a ranked sequence, behind its equals.
pub open spec fn ranked_in<T>(ranked: Seq<T>, x: T, before: spec_fn(T, T) -> bool) -> Seq<T>
    decreases ranked.len(),
{
    if ranked.len() == 0 || !before(x, ranked.last()) {
        ranked.push(x)
    } else {
        ranked_in(ranked.drop_last(), x, before).push(ranked.last())
    }
}

/// The elements in their ranking; equals stay in their order.
pub open spec fn ranking<T>(items: Seq<T>, before: spec_fn(T, T) -> bool) -> Seq<T>
    decreases items.len(),
{
    if items.len() == 0 {
        Seq::empty()
    } else {
        ranked_in(ranking(items.drop_last(), before), items.last(), before)
    }
}

/// Whether no element stands behind one that it ought to precede.
pub open spec fn is_ranked<T>(items: Seq<T>, before: spec_fn(T, T) -> bool) -> bool {
    forall|i: int, j: int|
        #![trigger items[i], items[j]]
        0 <= i < j < items.len() ==> !before(items[j], items[i])
}

/// Whether elements that need not be swapped never have to be: what need not
/// precede `b`, which need not precede `a`, need not precede `a`, and nothing
/// precedes what precedes it.
pub open spec fn orders<T>(before: spec_fn(T, T) -> bool) -> bool {
    &&& forall|a: T, b: T, c: T|
        #![trigger before(b, a), before(c, b)]
        !before(b, a) && !before(c, b) ==> !before(c, a)
    &&& forall|a: T, b: T| #[trigger] before(a, b) ==> !before(b, a)
}

proof fn ranked_in_is_ranked<T>(ranked: Seq<T>, x: T, before: spec_fn(T, T) -> bool)
    requires
        is_ranked(ranked, before),
        orders(before),
    ensures
        is_ranked(ranked_in(ranked, x, before), before),
        ranked_in(ranked, x, before).len() == ranked.len() + 1,
        ranked_in(ranked, x, before).to_multiset() == ranked.to_multiset().insert(x),
        forall|i: int|
            0 <= i < ranked_in(ranked, x, before).len() ==> #[trigger] ranked_in(
                ranked,
                x,
                before,
            )[i] == x || ranked.contains(ranked_in(ranked, x, before)[i]),
    decreases ranked.len(),
{
    broadcast use vstd::seq_lib::group_to_multiset_ensures;

    let now = ranked_in(ranked, x, before);
    if ranked.len() == 0 || !before(x, ranked.last()) {
        assert forall|i: int| 0 <= i < now.len() implies #[trigger] now[i] == x
            || ranked.contains(now[i]) by {
            if i < ranked.len() {
                assert(ranked[i] == now[i]);
            }
        }
        assert forall|i: int, j: int| 0 <= i < j < now.len() implies !before(
            #[trigger] now[j],
            #[trigger] now[i],
        ) by {
            if j < ranked.len() {
                assert(!before(ranked[j], ranked[i]));
            } else if i < ranked.len() - 1 {
                assert(!before(ranked[ranked.len() - 1], ranked[i]));
                assert(!before(x, ranked[ranked.len() - 1]));
            }
        }
    } else {
        let front = ranked.drop_last();
        assert(is_ranked(front, before)) by {
            assert forall|i: int, j: int| 0 <= i < j < front.len() implies !before(
                #[trigger] front[j],
                #[trigger] front[i],
            ) by {
                assert(!before(ranked[j], ranked[i]));
            }
        }
        ranked_in_is_ranked(front, x, before);
        let less = ranked_in(front, x, before);
        assert(front.push(ranked.last()) =~= ranked);
        assert(ranked.to_multiset() =~= front.to_multiset().insert(ranked.last()));
        assert(now.to_multiset() =~= ranked.to_multiset().insert(x));
        assert forall|i: int| 0 <= i < now.len() implies #[trigger] now[i] == x
            || ranked.contains(now[i]) by {
            if i < less.len() {
                assert(less[i] == now[i]);
                if now[i] != x {
                    let k = choose|k: int| 0 <= k < front.len() && front[k] == less[i];
                    assert(ranked[k] == now[i]);
                }
            } else {
                assert(ranked[ranked.len() - 1] == now[i]);
            }
        }
        assert forall|i: int, j: int| 0 <= i < j < now.len() implies !before(
            #[trigger] now[j],
            #[trigger] now[i],
        ) by {
            if j < less.len() {
                assert(!before(less[j], less[i]));
            } else {
                assert(less[i] == x || front.contains(less[i]));
                if less[i] != x {
                    let k = choose|k: int| 0 <= k < front.len() && front[k] == less[i];
                    assert(!before(ranked[ranked.len() - 1], ranked[k]));
                } else {
                    assert(before(x, ranked.last()));
                }
            }
        }
    }
}

/// Ranking elements neither adds nor drops any, and leaves none behind one
/// that it ought to precede.
pub proof fn ranking_is_the_same_in_order<T>(items: Seq<T>, before: spec_fn(T, T) -> bool)
    requires
        orders(before),
    ensures
        is_ranked(ranking(items, before), before),
        ranking(items, before).to_multiset() == items.to_multiset(),
        ranking(items, before).len() == items.len(),
    decreases items.len(),
{
    broadcast use vstd::seq_lib::group_to_multiset_ensures;

    if items.len() > 0 {
        ranking_is_the_same_in_order(items.drop_last(), before);
        ranked_in_is_ranked(ranking(items.drop_last(), before), items.last(), before);
        assert(items.drop_last().push(items.last()) =~= items);
    } else {
        assert(items =~= Seq::<T>::empty());
    }
}

/// Putting `x` behind the last element that it need not precede is putting it
/// into the ranking.
pub proof fn ranked_in_at<T>(ranked: Seq<T>, x: T, at: int, before: spec_fn(T, T) -> bool)
    requires
        0 <= at <= ranked.len(),
        at > 0 ==> !before(x, ranked[at - 1]),
        forall|i: int| at <= i < ranked.len() ==> before(x, #[trigger] ranked[i]),
    ensures
        ranked_in(ranked, x, before) == ranked.insert(at, x),
    decreases ranked.len(),
{
    if ranked.len() == 0 || !before(x, ranked.last()) {
        if at < ranked.len() {
            assert(before(x, ranked[ranked.len() - 1]));
        }
        assert(ranked.insert(at, x) =~= ranked.push(x));
    } else {
        let front = ranked.drop_last();
        ranked_in_at(front, x, at, before);
        assert(ranked.insert(at, x) =~= front.insert(at, x).push(ranked.last()));
    }
}

} // verus!

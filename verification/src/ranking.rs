//! Ordering by falling keys.

use vstd::prelude::*;

#[allow(unused_imports)]
use crate::order::{ascends, lemma_ascending_unique};

verus! {

/// The order of positions by falling keys; of two with one key the first stays first.
pub open spec fn by_falling(keys: Seq<int>) -> spec_fn(int, int) -> bool {
    |i: int, j: int| keys[i] > keys[j] || keys[i] == keys[j] && i < j
}

/// Whether `order` goes through the positions of `keys`, each once, by falling keys.
pub open spec fn is_ranking(order: Seq<int>, keys: Seq<int>) -> bool {
    &&& ascends(order, by_falling(keys))
    &&& forall|i: int| #[trigger] order.contains(i) <==> 0 <= i < keys.len()
}

/// The positions of `keys` by falling keys.
pub open spec fn ranking(keys: Seq<int>) -> Seq<int> {
    choose|order: Seq<int>| is_ranking(order, keys)
}

/// There is only one such order.
pub proof fn lemma_ranking_unique(order: Seq<int>, keys: Seq<int>)
    requires
        is_ranking(order, keys),
    ensures
        order == ranking(keys),
{
    lemma_ascending_unique(order, ranking(keys), by_falling(keys));
}

/// What each of `keys` is.
pub open spec fn key_values(keys: Seq<i64>) -> Seq<int> {
    Seq::new(keys.len(), |i: int| keys[i] as int)
}

/// What each of `positions` is.
pub open spec fn position_values(positions: Seq<usize>) -> Seq<int> {
    Seq::new(positions.len(), |i: int| positions[i] as int)
}

/// Putting the next position where its key says keeps the order.
proof fn lemma_insert(order: Seq<int>, keys: Seq<int>, next: Seq<int>, at: int)
    requires
        is_ranking(order, keys),
        0 <= at <= order.len(),
        next.len() == keys.len() + 1,
        next.take(keys.len() as int) == keys,
        forall|k: int| 0 <= k < at ==> next[#[trigger] order[k]] >= next.last(),
        at < order.len() ==> next[order[at]] < next.last(),
    ensures
        is_ranking(order.insert(at, keys.len() as int), next),
{
    let n = keys.len() as int;
    let result = order.insert(at, n);
    let before = by_falling(next);
    assert forall|k: int| 0 <= k < order.len() implies 0 <= #[trigger] order[k] < n && next[order[k]]
        == keys[order[k]] by {
        assert(order.contains(order[k]));
        assert(next.take(n)[order[k]] == next[order[k]]);
    }
    assert forall|k: int, l: int| 0 <= k < l < order.len() implies before(
        #[trigger] order[k],
        #[trigger] order[l],
    ) by {
        assert(by_falling(keys)(order[k], order[l]));
    }
    assert forall|k: int, l: int| 0 <= k < l < result.len() implies before(
        #[trigger] result[k],
        #[trigger] result[l],
    ) by {
        if l == at {
            assert(result[k] == order[k]);
        } else if k == at {
            assert(result[l] == order[l - 1]);
            if l - 1 > at {
                assert(before(order[at], order[l - 1]));
            }
        } else {
            let k0 = if k < at { k } else { k - 1 };
            let l0 = if l < at { l } else { l - 1 };
            assert(result[k] == order[k0] && result[l] == order[l0]);
            assert(before(order[k0], order[l0]));
        }
    }
    assert forall|i: int| #[trigger] result.contains(i) <==> 0 <= i < next.len() by {
        if result.contains(i) {
            let k = choose|k: int| 0 <= k < result.len() && result[k] == i;
            if k != at {
                assert(result[k] == order[if k < at { k } else { k - 1 }]);
            }
        }
        if 0 <= i < n {
            assert(order.contains(i));
            let k = choose|k: int| 0 <= k < order.len() && order[k] == i;
            assert(result[if k < at { k } else { k + 1 }] == i);
        }
        if i == n {
            assert(result[at] == i);
        }
    }
}

/// Where the next position belongs, at `from` or later.
proof fn lemma_place(order: Seq<int>, next: Seq<int>, from: int) -> (at: int)
    requires
        0 <= from <= order.len(),
        forall|k: int| 0 <= k < from ==> next[#[trigger] order[k]] >= next.last(),
    ensures
        0 <= at <= order.len(),
        forall|k: int| 0 <= k < at ==> next[#[trigger] order[k]] >= next.last(),
        at < order.len() ==> next[order[at]] < next.last(),
    decreases order.len() - from,
{
    if from < order.len() && next[order[from]] >= next.last() {
        lemma_place(order, next, from + 1)
    } else {
        from
    }
}

/// There is such an order.
pub proof fn lemma_ranking_exists(keys: Seq<int>)
    ensures
        is_ranking(ranking(keys), keys),
    decreases keys.len(),
{
    if keys.len() == 0 {
        assert(is_ranking(Seq::empty(), keys));
    } else {
        let short = keys.drop_last();
        lemma_ranking_exists(short);
        let at = lemma_place(ranking(short), keys, 0);
        assert(keys.take(short.len() as int) =~= short);
        lemma_insert(ranking(short), short, keys, at);
    }
}

/// The positions of `keys` by falling keys.
pub fn rank_falling(keys: &Vec<i64>) -> (order: Vec<usize>)
    ensures
        position_values(order@) == ranking(key_values(keys@)),
        is_ranking(position_values(order@), key_values(keys@)),
{
    let mut order: Vec<usize> = Vec::new();
    let ghost all = key_values(keys@);
    for i in 0..keys.len()
        invariant
            all == key_values(keys@),
            order@.len() == i,
            is_ranking(position_values(order@), all.take(i as int)),
    {
        let ghost before = position_values(order@);
        assert forall|k: int| 0 <= k < i implies 0 <= #[trigger] order@[k] < i by {
            assert(before.contains(before[k]));
        }
        let mut at: usize = 0;
        while at < order.len() && keys[order[at]] >= keys[i]
            invariant
                i < keys@.len(),
                at <= order@.len(),
                order@.len() == i,
                forall|k: int| 0 <= k < i ==> 0 <= #[trigger] order@[k] < i,
                forall|k: int| 0 <= k < at ==> keys@[#[trigger] order@[k] as int] >= keys@[i as int],
            decreases order@.len() - at,
        {
            at = at + 1;
        }
        proof {
            let next = all.take(i + 1);
            assert(next.take(i as int) =~= all.take(i as int));
            assert forall|k: int| 0 <= k < at implies next[#[trigger] before[k]] >= next.last() by {
                assert(before[k] == order@[k] as int);
            }
            lemma_insert(before, all.take(i as int), next, at as int);
        }
        order.insert(at, i);
        assert(position_values(order@) =~= before.insert(at as int, i as int));
    }
    assert(all.take(keys@.len() as int) =~= all);
    proof {
        lemma_ranking_unique(position_values(order@), all);
    }
    order
}

} // verus!

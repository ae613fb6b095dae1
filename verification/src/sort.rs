//! Stable ranking of candidates by fitness.
//!
//! The update step sorts each generation's candidates by their fitness keys,
//! ascending, with ties broken by the original index so that the ranking is
//! deterministic.  The ranking is returned as a permutation of the candidate
//! indices; the caller reorders whatever rides along with them (candidate
//! rows, raw draws) by that permutation.

use vstd::prelude::*;

verus! {

/// Strict "ranks before" order on candidate indices: by key, ascending, with
/// ties broken by the original index.  Total on distinct indices.
pub open spec fn ranks_before(keys: Seq<i64>, a: int, b: int) -> bool {
    keys[a] < keys[b] || (keys[a] == keys[b] && a < b)
}

/// A complete stable ranking of the candidates `0 .. keys.len()`:
/// every candidate appears, and earlier entries rank before later ones.
pub open spec fn is_ranking(keys: Seq<i64>, order: Seq<usize>) -> bool {
    &&& order.len() == keys.len()
    &&& forall|k: int| 0 <= k < order.len() ==> (#[trigger] order[k]) < keys.len()
    &&& forall|k1: int, k2: int|
        0 <= k1 < k2 < order.len() ==> ranks_before(keys, order[k1] as int, order[k2] as int)
    &&& forall|v: usize| v < keys.len() ==> order.contains(v)
}

/// Decides `ranks_before` on two candidate indices.
fn ranks_before_exec(keys: &Vec<i64>, a: usize, b: usize) -> (r: bool)
    requires
        a < keys@.len(),
        b < keys@.len(),
    ensures
        r == ranks_before(keys@, a as int, b as int),
{
    keys[a] < keys[b] || (keys[a] == keys[b] && a < b)
}

/// Computes the stable ranking of the candidates by their fitness keys:
/// a permutation of `0 .. keys.len()` listing the candidate indices from
/// best (lowest key) to worst, ties in original order.
pub fn argsort(keys: &Vec<i64>) -> (order: Vec<usize>)
    ensures
        is_ranking(keys@, order@),
{
    let n: usize = keys.len();
    let mut order: Vec<usize> = Vec::new();
    let mut idx: usize = 0;
    while idx < n
        invariant
            idx <= n,
            n == keys@.len(),
            order@.len() == idx,
            forall|k: int| 0 <= k < order@.len() ==> (#[trigger] order@[k]) < idx,
            forall|k1: int, k2: int|
                0 <= k1 < k2 < order@.len() ==> ranks_before(
                    keys@,
                    order@[k1] as int,
                    order@[k2] as int,
                ),
            forall|v: usize| v < idx ==> order@.contains(v),
        decreases n - idx,
    {
        // Scan for the first already-ranked entry that does not rank before
        // the new candidate; everything before it does.
        let mut p: usize = 0;
        while p < order.len() && ranks_before_exec(keys, order[p], idx)
            invariant
                p <= order@.len(),
                idx < n,
                n == keys@.len(),
                order@.len() == idx,
                forall|k: int| 0 <= k < order@.len() ==> (#[trigger] order@[k]) < idx,
                forall|k: int| 0 <= k < p ==> ranks_before(keys@, order@[k] as int, idx as int),
            decreases order@.len() - p,
        {
            p = p + 1;
        }
        let ghost before = order@;
        order.insert(p, idx);
        proof {
            before.insert_ensures(p as int, idx);
            // The new candidate ranks before every entry it displaced: none of
            // them ranks before it, and it differs from all of them.
            assert forall|k: int| p <= k < before.len() implies ranks_before(
                keys@,
                idx as int,
                before[k] as int,
            ) by {
                if k > p {
                    assert(ranks_before(keys@, before[p as int] as int, before[k] as int));
                }
            }
            assert forall|v: usize| v < idx + 1 implies order@.contains(v) by {
                if v == idx {
                    assert(order@[p as int] == idx);
                } else {
                    assert(before.contains(v));
                    let k = choose|k: int| 0 <= k < before.len() && before[k] == v;
                    assert(0 <= k < before.len() && before[k] == v);
                    if k < p {
                        assert(order@[k] == before[k]);
                        assert(order@[k] == v);
                    } else {
                        assert(order@[k + 1] == before[k]);
                        assert(order@[k + 1] == v);
                    }
                }
            }
        }
        idx = idx + 1;
    }
    order
}

proof fn lemma_rankings_agree_from(keys: Seq<i64>, o1: Seq<usize>, o2: Seq<usize>, k: int)
    requires
        is_ranking(keys, o1),
        is_ranking(keys, o2),
        0 <= k <= o1.len(),
        forall|j: int| 0 <= j < k ==> o1[j] == o2[j],
    ensures
        forall|j: int| 0 <= j < o1.len() ==> o1[j] == o2[j],
    decreases o1.len() - k,
{
    if k < o1.len() {
        let v1 = o1[k];
        let v2 = o2[k];
        assert(o1.contains(v2));
        let j1 = choose|j: int| 0 <= j < o1.len() && o1[j] == v2;
        assert(0 <= j1 < o1.len() && o1[j1] == v2);
        assert(o2.contains(v1));
        let j2 = choose|j: int| 0 <= j < o2.len() && o2[j] == v1;
        assert(0 <= j2 < o2.len() && o2[j2] == v1);
        // v2 cannot sit before position k in o1: the rankings agree there,
        // and an entry never ranks before itself
        if j1 < k {
            assert(ranks_before(keys, o2[j1] as int, o2[k] as int));
            assert(false);
        }
        if j2 < k {
            assert(ranks_before(keys, o1[j2] as int, o1[k] as int));
            assert(false);
        }
        // if both sat strictly after k, each would rank before the other
        if j1 > k {
            assert(ranks_before(keys, o1[k] as int, o1[j1] as int));
        }
        if j2 > k {
            assert(ranks_before(keys, o2[k] as int, o2[j2] as int));
        }
        assert(v1 == v2);
        lemma_rankings_agree_from(keys, o1, o2, k + 1);
    }
}

/// The ranking is unique: any two complete stable rankings of the same keys
/// agree everywhere.  Breaking ties by the original index is exactly what
/// makes the selection step deterministic.
pub proof fn lemma_ranking_unique(keys: Seq<i64>, o1: Seq<usize>, o2: Seq<usize>)
    requires
        is_ranking(keys, o1),
        is_ranking(keys, o2),
    ensures
        o1 == o2,
{
    lemma_rankings_agree_from(keys, o1, o2, 0);
    assert(o1 =~= o2);
}

/// The head of a ranking carries a key no greater than any candidate's key.
pub proof fn lemma_ranking_head_is_min(keys: Seq<i64>, order: Seq<usize>)
    requires
        is_ranking(keys, order),
        0 < keys.len() <= usize::MAX,
    ensures
        forall|i: int| 0 <= i < keys.len() ==> keys[order[0] as int] <= #[trigger] keys[i],
{
    assert forall|i: int| 0 <= i < keys.len() implies keys[order[0] as int] <= #[trigger] keys[i] by {
        let v = i as usize;
        assert(order.contains(v));
        let k = choose|k: int| 0 <= k < order.len() && order[k] == v;
        assert(0 <= k < order.len() && order[k] == v);
        if k > 0 {
            assert(ranks_before(keys, order[0] as int, order[k] as int));
            assert(keys[order[0] as int] <= keys[v as int]);
        }
    }
}

} // verus!

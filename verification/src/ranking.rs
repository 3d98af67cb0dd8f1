//! Ranking: the eligible entries by descending key, ties in input order.

use vstd::prelude::*;
use crate::analyzer::StrategyAnalysis;

verus! {

/// Entry `a` comes before entry `b`: its key is greater, or the keys are
/// equal and it stands earlier in the input.
pub open spec fn ranks_before(keys: Seq<i128>, a: int, b: int) -> bool {
    keys[a] > keys[b] || (keys[a] == keys[b] && a < b)
}

/// `order` lists exactly the eligible positions below `n`, each before all
/// those that it ranks before.
pub open spec fn is_ranking(order: Seq<usize>, keys: Seq<i128>, eligible: Seq<bool>, n: int) -> bool {
    &&& forall|p: int| 0 <= p < order.len() ==> #[trigger] order[p] < n && eligible[order[p] as int]
    &&& forall|i: int| 0 <= i < n && #[trigger] eligible[i] ==> order.contains(i as usize)
    &&& forall|p: int, q: int|
        0 <= p < q < order.len() ==> ranks_before(
            keys,
            #[trigger] order[p] as int,
            #[trigger] order[q] as int,
        )
}

/// The eligible positions by descending key; equal keys keep their input
/// order.
pub fn rank_descending(keys: &Vec<i128>, eligible: &Vec<bool>) -> (order: Vec<usize>)
    requires
        keys.len() == eligible.len(),
    ensures
        is_ranking(order@, keys@, eligible@, keys.len() as int),
        order.len() <= keys.len(),
{
    let n = keys.len();
    let mut order: Vec<usize> = Vec::new();
    let mut i: usize = 0;
    while i < n
        invariant
            n == keys.len(),
            n == eligible.len(),
            i <= n,
            order.len() <= i,
            is_ranking(order@, keys@, eligible@, i as int),
        decreases n - i,
    {
        if eligible[i] {
            let mut p: usize = 0;
            while p < order.len() && keys[order[p]] >= keys[i]
                invariant
                    n == keys.len(),
                    i < n,
                    p <= order.len(),
                    is_ranking(order@, keys@, eligible@, i as int),
                    forall|q: int| 0 <= q < p ==> keys[#[trigger] order[q] as int] >= keys[i as int],
                decreases order.len() - p,
            {
                p = p + 1;
            }
            let ghost before = order@;
            order.insert(p, i);
            proof {
                let after = order@;
                assert(after.len() == before.len() + 1);
                assert(after[p as int] == i);
                assert forall|q: int| 0 <= q < p implies after[q] == before[q] by {}
                assert forall|q: int| p < q < after.len() implies after[q] == before[q - 1] by {}
                assert forall|q: int| 0 <= q < after.len() implies #[trigger] after[q] < i + 1
                    && eligible[after[q] as int] by {
                    if q < p {
                        assert(after[q] == before[q]);
                    } else if q > p {
                        assert(after[q] == before[q - 1]);
                    }
                }
                assert forall|j: int| 0 <= j < i + 1 && #[trigger] eligible[j] implies after.contains(
                    j as usize,
                ) by {
                    if j == i {
                        assert(after[p as int] == j as usize);
                    } else {
                        assert(before.contains(j as usize));
                        let q = choose|q: int| 0 <= q < before.len() && before[q] == j as usize;
                        if q < p {
                            assert(after[q] == j as usize);
                        } else {
                            assert(after[q + 1] == j as usize);
                        }
                    }
                }
                assert forall|a: int, b: int| 0 <= a < b < after.len() implies ranks_before(
                    keys@,
                    #[trigger] after[a] as int,
                    #[trigger] after[b] as int,
                ) by {
                    if b < p {
                        assert(after[a] == before[a] && after[b] == before[b]);
                    } else if a > p {
                        assert(after[a] == before[a - 1] && after[b] == before[b - 1]);
                    } else if a < p && b > p {
                        assert(after[a] == before[a] && after[b] == before[b - 1]);
                    } else if a == p {
                        // the new entry before a later one, whose key is smaller
                        assert(after[b] == before[b - 1]);
                        if b - 1 > p {
                            assert(ranks_before(keys@, before[p as int] as int, before[b - 1] as int));
                        }
                        assert(keys[before[p as int] as int] < keys[i as int]);
                    } else {
                        // an earlier entry before the new one
                        assert(b == p);
                        assert(after[a] == before[a]);
                        assert(keys[before[a] as int] >= keys[i as int]);
                        assert(before[a] < i);
                    }
                }
            }
        }
        i = i + 1;
    }
    order
}

/// The profitable analyses by descending total return.
pub fn rank_by_total_return(analyses: &Vec<StrategyAnalysis>) -> (order: Vec<usize>)
    ensures
        is_ranking(order@, total_returns(analyses@), profitable_flags(analyses@), analyses.len() as int),
        order.len() <= analyses.len(),
{
    let n = analyses.len();
    let mut keys: Vec<i128> = Vec::new();
    let mut flags: Vec<bool> = Vec::new();
    let mut i: usize = 0;
    while i < n
        invariant
            n == analyses.len(),
            i <= n,
            keys.len() == i,
            flags.len() == i,
            forall|j: int| 0 <= j < i ==> #[trigger] keys[j] == analyses[j].total_return,
            forall|j: int| 0 <= j < i ==> #[trigger] flags[j] == analyses[j].profitable(),
        decreases n - i,
    {
        keys.push(analyses[i].total_return());
        flags.push(analyses[i].is_profitable());
        i = i + 1;
    }
    assert(keys@ =~= total_returns(analyses@));
    assert(flags@ =~= profitable_flags(analyses@));
    rank_descending(&keys, &flags)
}

/// The profitable analyses by descending Sharpe ratio.
pub fn rank_by_sharpe(analyses: &Vec<StrategyAnalysis>) -> (order: Vec<usize>)
    ensures
        is_ranking(order@, sharpe_ratios(analyses@), profitable_flags(analyses@), analyses.len() as int),
        order.len() <= analyses.len(),
{
    let n = analyses.len();
    let mut keys: Vec<i128> = Vec::new();
    let mut flags: Vec<bool> = Vec::new();
    let mut i: usize = 0;
    while i < n
        invariant
            n == analyses.len(),
            i <= n,
            keys.len() == i,
            flags.len() == i,
            forall|j: int| 0 <= j < i ==> #[trigger] keys[j] == analyses[j].sharpe_ratio,
            forall|j: int| 0 <= j < i ==> #[trigger] flags[j] == analyses[j].profitable(),
        decreases n - i,
    {
        keys.push(analyses[i].sharpe_ratio());
        flags.push(analyses[i].is_profitable());
        i = i + 1;
    }
    assert(keys@ =~= sharpe_ratios(analyses@));
    assert(flags@ =~= profitable_flags(analyses@));
    rank_descending(&keys, &flags)
}

/// The total returns of the analyses.
pub open spec fn total_returns(analyses: Seq<StrategyAnalysis>) -> Seq<i128> {
    Seq::new(analyses.len(), |i: int| analyses[i].total_return)
}

/// The Sharpe ratios of the analyses.
pub open spec fn sharpe_ratios(analyses: Seq<StrategyAnalysis>) -> Seq<i128> {
    Seq::new(analyses.len(), |i: int| analyses[i].sharpe_ratio)
}

/// Which of the analyses are profitable.
pub open spec fn profitable_flags(analyses: Seq<StrategyAnalysis>) -> Seq<bool> {
    Seq::new(analyses.len(), |i: int| analyses[i].profitable())
}


/// A ranking lists each position once.
pub proof fn lemma_ranking_distinct(order: Seq<usize>, keys: Seq<i128>, eligible: Seq<bool>, n: int)
    requires
        is_ranking(order, keys, eligible, n),
    ensures
        forall|p: int, q: int| 0 <= p < q < order.len() ==> order[p] != order[q],
{
    assert forall|p: int, q: int| 0 <= p < q < order.len() implies order[p] != order[q] by {
        assert(ranks_before(keys, order[p] as int, order[q] as int));
    }
}

/// Where every position is eligible, a ranking has as many entries as
/// there are positions.
pub proof fn lemma_ranking_of_all(order: Seq<usize>, keys: Seq<i128>, eligible: Seq<bool>)
    requires
        keys.len() == eligible.len(),
        keys.len() <= usize::MAX,
        is_ranking(order, keys, eligible, keys.len() as int),
        forall|i: int| 0 <= i < eligible.len() ==> eligible[i],
    ensures
        order.len() == keys.len(),
{
    lemma_ranking_distinct(order, keys, eligible, keys.len() as int);
    let n = keys.len() as int;
    // order is an injection into 0..n and covers 0..n
    let positions = order.map(|i: int, v: usize| v as int);
    assert(positions.no_duplicates()) by {
        assert forall|p: int, q: int|
            0 <= p < positions.len() && 0 <= q < positions.len() && p != q implies positions[p]
            != positions[q] by {
            if p < q {
                assert(order[p] != order[q]);
            } else {
                assert(order[q] != order[p]);
            }
        }
    }
    let covered = positions.to_set();
    let all = vstd::set_lib::set_int_range(0, n);
    assert(covered =~= all) by {
        assert forall|v: int| covered.contains(v) <==> all.contains(v) by {
            if covered.contains(v) {
                let p = choose|p: int| 0 <= p < positions.len() && positions[p] == v;
                assert(order[p] < n);
            }
            if all.contains(v) {
                assert(eligible[v]);
                assert(order.contains(v as usize));
                let p = choose|p: int| 0 <= p < order.len() && order[p] == v as usize;
                assert(positions[p] == v);
                assert(covered.contains(v));
            }
        }
    }
    positions.unique_seq_to_set();
    vstd::set_lib::lemma_int_range(0, n);
}


/// Two sequences in ranking order with the same entries are the same
/// sequence.
pub proof fn lemma_rank_order_unique(a: Seq<usize>, b: Seq<usize>, keys: Seq<i128>)
    requires
        forall|p: int, q: int|
            0 <= p < q < a.len() ==> ranks_before(
                keys,
                #[trigger] a[p] as int,
                #[trigger] a[q] as int,
            ),
        forall|p: int, q: int|
            0 <= p < q < b.len() ==> ranks_before(
                keys,
                #[trigger] b[p] as int,
                #[trigger] b[q] as int,
            ),
        forall|x: usize| #[trigger] a.contains(x) <==> b.contains(x),
    ensures
        a == b,
    decreases a.len(),
{
    if a.len() == 0 {
        if b.len() > 0 {
            assert(b.contains(b[0]));
            assert(a.contains(b[0]));
        }
        assert(a =~= b);
    } else {
        assert(a.contains(a[0]));
        assert(b.contains(a[0]));
        let k = choose|k: int| 0 <= k < b.len() && b[k] == a[0];
        assert(b.contains(b[0]));
        assert(a.contains(b[0]));
        let m = choose|m: int| 0 <= m < a.len() && a[m] == b[0];
        if m > 0 && k > 0 {
            assert(ranks_before(keys, a[0] as int, a[m] as int));
            assert(ranks_before(keys, b[0] as int, b[k] as int));
        }
        assert(a[0] == b[0]);
        let a1 = a.skip(1);
        let b1 = b.skip(1);
        assert forall|x: usize| #[trigger] a1.contains(x) <==> b1.contains(x) by {
            if a1.contains(x) {
                let i = choose|i: int| 0 <= i < a1.len() && a1[i] == x;
                assert(a[i + 1] == x);
                assert(ranks_before(keys, a[0] as int, a[i + 1] as int));
                assert(a.contains(x));
                assert(b.contains(x));
                let j = choose|j: int| 0 <= j < b.len() && b[j] == x;
                assert(j != 0);
                assert(b1[j - 1] == x);
            }
            if b1.contains(x) {
                let i = choose|i: int| 0 <= i < b1.len() && b1[i] == x;
                assert(b[i + 1] == x);
                assert(ranks_before(keys, b[0] as int, b[i + 1] as int));
                assert(b.contains(x));
                assert(a.contains(x));
                let j = choose|j: int| 0 <= j < a.len() && a[j] == x;
                assert(j != 0);
                assert(a1[j - 1] == x);
            }
        }
        assert forall|p: int, q: int| 0 <= p < q < a1.len() implies ranks_before(
            keys,
            #[trigger] a1[p] as int,
            #[trigger] a1[q] as int,
        ) by {
            assert(ranks_before(keys, a[p + 1] as int, a[q + 1] as int));
        }
        assert forall|p: int, q: int| 0 <= p < q < b1.len() implies ranks_before(
            keys,
            #[trigger] b1[p] as int,
            #[trigger] b1[q] as int,
        ) by {
            assert(ranks_before(keys, b[p + 1] as int, b[q + 1] as int));
        }
        lemma_rank_order_unique(a1, b1, keys);
        assert(a1.len() == a.len() - 1);
        assert(b1.len() == b.len() - 1);
        assert(a.len() == b.len());
        assert forall|i: int| 0 <= i < a.len() implies a[i] == b[i] by {
            if i > 0 {
                assert(a1[i - 1] == b1[i - 1]);
            }
        }
        assert(a =~= b);
    }
}

/// There is one ranking only.
pub proof fn lemma_ranking_unique(
    a: Seq<usize>,
    b: Seq<usize>,
    keys: Seq<i128>,
    eligible: Seq<bool>,
    n: int,
)
    requires
        is_ranking(a, keys, eligible, n),
        is_ranking(b, keys, eligible, n),
    ensures
        a == b,
{
    assert forall|x: usize| #[trigger] a.contains(x) <==> b.contains(x) by {
        if a.contains(x) {
            let p = choose|p: int| 0 <= p < a.len() && a[p] == x;
            assert(a[p] < n && eligible[a[p] as int]);
            assert(b.contains(x as int as usize));
        }
        if b.contains(x) {
            let p = choose|p: int| 0 <= p < b.len() && b[p] == x;
            assert(b[p] < n && eligible[b[p] as int]);
            assert(a.contains(x as int as usize));
        }
    }
    lemma_rank_order_unique(a, b, keys);
}

} // verus!

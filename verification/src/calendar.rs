//! The trading calendar that a set of series share.

use vstd::prelude::*;
use crate::series::{Series, strictly_increasing};

verus! {

/// Why a set of series cannot be aligned.
#[derive(Clone, Copy, Debug, PartialEq, Eq)]
pub enum AlignError {
    /// The `series` series share `actual` dates, from `first_date` to
    /// `last_date`, where `required` are needed.
    InsufficientHistory {
        required: usize,
        actual: usize,
        series: usize,
        first_date: Option<i32>,
        last_date: Option<i32>,
    },
}

/// `d` occurs in the dates of every series.
pub open spec fn in_every(series: Seq<Series>, d: i32) -> bool {
    forall|k: int| 0 <= k < series.len() ==> (#[trigger] series[k]).dates@.contains(d)
}

/// `dates` is the shared calendar of `series`: sorted, and holding exactly
/// the dates that occur in every series. No series gives the empty calendar.
pub open spec fn is_common_calendar(dates: Seq<i32>, series: Seq<Series>) -> bool {
    &&& strictly_increasing(dates)
    &&& series.len() == 0 ==> dates.len() == 0
    &&& series.len() > 0 ==> forall|d: i32| #[trigger] dates.contains(d) <==> in_every(series, d)
}

/// The shared calendar of `series`.
pub open spec fn common_calendar(series: Seq<Series>) -> Seq<i32> {
    choose|dates: Seq<i32>| is_common_calendar(dates, series)
}

/// The shared calendar of a set of series is a subset of the dates of each
/// of them, and no date that occurs in all of them is missing from it.
pub proof fn lemma_calendar_subset_and_maximal(dates: Seq<i32>, series: Seq<Series>, k: int, d: i32)
    requires
        is_common_calendar(dates, series),
        0 <= k < series.len(),
    ensures
        dates.contains(d) ==> series[k].dates@.contains(d),
        in_every(series, d) ==> dates.contains(d),
{
    if dates.contains(d) {
        assert(in_every(series, d));
    }
}

/// Two sorted sequences with the same elements are the same sequence.
pub proof fn lemma_sorted_same_elements(s: Seq<i32>, t: Seq<i32>)
    requires
        strictly_increasing(s),
        strictly_increasing(t),
        forall|d: i32| #[trigger] s.contains(d) <==> t.contains(d),
    ensures
        s == t,
    decreases s.len(),
{
    if s.len() == 0 {
        if t.len() > 0 {
            assert(t.contains(t[0]));
            assert(s.contains(t[0]));
        }
        assert(s =~= t);
    } else {
        assert(s.contains(s[0]));
        assert(t.contains(s[0]));
        let k = choose|k: int| 0 <= k < t.len() && t[k] == s[0];
        assert(t.contains(t[0]));
        assert(s.contains(t[0]));
        let m = choose|m: int| 0 <= m < s.len() && s[m] == t[0];
        assert(s[0] == t[0]);
        let s1 = s.skip(1);
        let t1 = t.skip(1);
        assert forall|d: i32| #[trigger] s1.contains(d) <==> t1.contains(d) by {
            if s1.contains(d) {
                let i = choose|i: int| 0 <= i < s1.len() && s1[i] == d;
                assert(s[i + 1] == d);
                assert(s.contains(d));
                assert(t.contains(d));
                let j = choose|j: int| 0 <= j < t.len() && t[j] == d;
                assert(j != 0);
                assert(t1[j - 1] == d);
            }
            if t1.contains(d) {
                let i = choose|i: int| 0 <= i < t1.len() && t1[i] == d;
                assert(t[i + 1] == d);
                assert(t.contains(d));
                assert(s.contains(d));
                let j = choose|j: int| 0 <= j < s.len() && s[j] == d;
                assert(j != 0);
                assert(s1[j - 1] == d);
            }
        }
        assert(strictly_increasing(s1)) by {
            assert forall|i: int, j: int| 0 <= i < j < s1.len() implies s1[i] < s1[j] by {
                assert(s[i + 1] < s[j + 1]);
            }
        }
        assert(strictly_increasing(t1)) by {
            assert forall|i: int, j: int| 0 <= i < j < t1.len() implies t1[i] < t1[j] by {
                assert(t[i + 1] < t[j + 1]);
            }
        }
        lemma_sorted_same_elements(s1, t1);
        assert(s.len() == t.len());
        assert forall|i: int| 0 <= i < s.len() implies s[i] == t[i] by {
            if i > 0 {
                assert(s1[i - 1] == t1[i - 1]);
            }
        }
        assert(s =~= t);
    }
}

/// A set of series has one shared calendar only.
pub proof fn lemma_common_calendar_unique(dates: Seq<i32>, series: Seq<Series>)
    requires
        is_common_calendar(dates, series),
    ensures
        common_calendar(series) == dates,
{
    let other = common_calendar(series);
    assert(is_common_calendar(other, series));
    if series.len() == 0 {
        assert(other =~= dates);
    } else {
        assert forall|d: i32| #[trigger] other.contains(d) <==> dates.contains(d) by {
            assert(other.contains(d) <==> in_every(series, d));
            assert(dates.contains(d) <==> in_every(series, d));
        }
        lemma_sorted_same_elements(other, dates);
    }
}

/// The elements that two sorted sequences share, in order.
pub fn intersect_sorted(a: &Vec<i32>, b: &Vec<i32>) -> (out: Vec<i32>)
    requires
        strictly_increasing(a@),
        strictly_increasing(b@),
    ensures
        strictly_increasing(out@),
        forall|d: i32| #[trigger] out@.contains(d) <==> a@.contains(d) && b@.contains(d),
        out.len() <= a.len(),
{
    let mut out: Vec<i32> = Vec::new();
    let mut i: usize = 0;
    let mut j: usize = 0;
    while i < a.len() && j < b.len()
        invariant
            strictly_increasing(a@),
            strictly_increasing(b@),
            i <= a.len(),
            j <= b.len(),
            out.len() <= i,
            strictly_increasing(out@),
            forall|k: int| 0 <= k < out.len() ==> i > 0 && #[trigger] out[k] <= a[i - 1],
            forall|k: int|
                0 <= k < out.len() ==> a@.contains(#[trigger] out[k]) && b@.contains(out[k]),
            forall|p: int, q: int|
                0 <= p < a.len() && 0 <= q < b.len() && #[trigger] a[p] == #[trigger] b[q]
                    ==> out@.contains(a[p]) || (p >= i && q >= j),
        decreases a.len() - i + b.len() - j,
    {
        let x = a[i];
        let y = b[j];
        if x < y {
            i = i + 1;
        } else if y < x {
            j = j + 1;
        } else {
            let ghost before = out@;
            out.push(x);
            proof {
                assert(out@[before.len() as int] == x);
                assert forall|k: int| 0 <= k < out.len() implies a@.contains(#[trigger] out[k])
                    && b@.contains(out[k]) by {
                    if k < before.len() {
                        assert(out[k] == before[k]);
                    } else {
                        assert(a[i as int] == x);
                        assert(b[j as int] == x);
                    }
                }
                assert forall|p: int, q: int|
                    0 <= p < a.len() && 0 <= q < b.len() && #[trigger] a[p] == #[trigger] b[q]
                    implies out@.contains(a[p]) || (p >= i + 1 && q >= j + 1) by {
                    if before.contains(a[p]) {
                        let k = choose|k: int| 0 <= k < before.len() && before[k] == a[p];
                        assert(out@[k] == a[p]);
                    } else if p == i || q == j {
                        assert(a[p] == x);
                        assert(out@[before.len() as int] == a[p]);
                    }
                }
                assert forall|k: int, l: int| 0 <= k < l < out.len() implies out[k] < out[l] by {
                    if l < before.len() {
                        assert(before[k] < before[l]);
                    } else {
                        assert(out[k] == before[k]);
                        if i > 0 {
                            assert(a[i - 1] < a[i as int]);
                        }
                    }
                }
            }
            i = i + 1;
            j = j + 1;
        }
    }
    proof {
        assert forall|d: i32| #[trigger] out@.contains(d) <==> a@.contains(d) && b@.contains(
            d,
        ) by {
            if a@.contains(d) && b@.contains(d) {
                let p = choose|p: int| 0 <= p < a.len() && a[p] == d;
                let q = choose|q: int| 0 <= q < b.len() && b[q] == d;
                assert(a[p] == b[q]);
            }
            if out@.contains(d) {
                let k = choose|k: int| 0 <= k < out.len() && out[k] == d;
                assert(a@.contains(out[k]));
            }
        }
    }
    out
}

/// The dates present in every series, in ascending order.
pub fn intersect_dates(series: &[Series]) -> (out: Vec<i32>)
    requires
        forall|k: int| 0 <= k < series.len() ==> (#[trigger] series[k]).wf(),
    ensures
        is_common_calendar(out@, series@),
        out@ == common_calendar(series@),
        series.len() > 0 ==> out.len() <= series[0].dates.len(),
{
    if series.len() == 0 {
        let out: Vec<i32> = Vec::new();
        proof {
            lemma_common_calendar_unique(out@, series@);
        }
        return out;
    }
    let mut base: Vec<i32> = series[0].dates.clone();
    let mut k: usize = 1;
    proof {
        let first = series@.subrange(0, 1);
        assert(first[0] == series[0]);
        assert forall|d: i32| #[trigger] base@.contains(d) <==> in_every(first, d) by {
            if in_every(first, d) {
                assert(first[0].dates@.contains(d));
            }
        }
    }
    while k < series.len()
        invariant
            forall|m: int| 0 <= m < series.len() ==> (#[trigger] series[m]).wf(),
            1 <= k <= series.len(),
            strictly_increasing(base@),
            base.len() <= series[0].dates.len(),
            forall|d: i32| #[trigger]
                base@.contains(d) <==> in_every(series@.subrange(0, k as int), d),
        decreases series.len() - k,
    {
        let ghost prev = base@;
        base = intersect_sorted(&base, &series[k].dates);
        proof {
            let head = series@.subrange(0, k as int);
            let more = series@.subrange(0, k + 1);
            assert forall|d: i32| #[trigger]
                base@.contains(d) <==> in_every(more, d) by {
                if in_every(more, d) {
                    assert(more[k as int].dates@.contains(d));
                    assert forall|m: int| 0 <= m < head.len() implies (#[trigger] head[m]).dates@.contains(
                        d,
                    ) by {
                        assert(more[m].dates@.contains(d));
                    }
                }
                if prev.contains(d) && series[k as int].dates@.contains(d) {
                    assert forall|m: int| 0 <= m < more.len() implies (#[trigger] more[m]).dates@.contains(
                        d,
                    ) by {
                        if m < k {
                            assert(head[m].dates@.contains(d));
                        }
                    }
                }
            }
        }
        k = k + 1;
    }
    proof {
        assert(series@.subrange(0, k as int) =~= series@);
        lemma_common_calendar_unique(base@, series@);
    }
    base
}

/// The first date of a calendar, if it has one.
pub open spec fn first_of(dates: Seq<i32>) -> Option<i32> {
    if dates.len() > 0 {
        Some(dates[0])
    } else {
        None
    }
}

/// The last date of a calendar, if it has one.
pub open spec fn last_of(dates: Seq<i32>) -> Option<i32> {
    if dates.len() > 0 {
        Some(dates[dates.len() - 1])
    } else {
        None
    }
}

/// The calendar shared by the baseline and every asset; it must hold at
/// least `ma_long + 10` dates. Where it does not, the error says how many
/// series share how many dates, and from when to when.
pub fn align(all: &[Series], ma_long: usize) -> (r: Result<Vec<i32>, AlignError>)
    requires
        forall|k: int| 0 <= k < all.len() ==> (#[trigger] all[k]).wf(),
    ensures
        match r {
            Ok(dates) => dates@ == common_calendar(all@) && dates.len() >= ma_long + 10,
            Err(
                AlignError::InsufficientHistory { required, actual, series, first_date, last_date },
            ) => {
                &&& actual == common_calendar(all@).len()
                &&& actual < ma_long + 10
                &&& required == if ma_long + 10 <= usize::MAX {
                    (ma_long + 10) as usize
                } else {
                    usize::MAX
                }
                &&& series == all.len()
                &&& first_date == first_of(common_calendar(all@))
                &&& last_date == last_of(common_calendar(all@))
            },
        },
        is_common_calendar(common_calendar(all@), all@),
{
    let dates = intersect_dates(all);
    let required: usize = if ma_long <= usize::MAX - 10 {
        ma_long + 10
    } else {
        usize::MAX
    };
    if ma_long > usize::MAX - 10 || dates.len() < required {
        let n = dates.len();
        Err(
            AlignError::InsufficientHistory {
                required,
                actual: n,
                series: all.len(),
                first_date: if n > 0 {
                    Some(dates[0])
                } else {
                    None
                },
                last_date: if n > 0 {
                    Some(dates[n - 1])
                } else {
                    None
                },
            },
        )
    } else {
        Ok(dates)
    }
}

/// The positions of the series that have at least `min_days` days; a
/// shorter series is left out before the calendars are intersected.
pub fn sufficient_history(series: &[Series], min_days: usize) -> (kept: Vec<usize>)
    ensures
        kept.len() <= series.len(),
        forall|a: int, b: int| 0 <= a < b < kept.len() ==> kept[a] < kept[b],
        forall|a: int| 0 <= a < kept.len() ==> #[trigger] kept[a] < series.len(),
        forall|k: int|
            0 <= k < series.len() ==> (kept@.contains(k as usize) <==> (#[trigger] series[k]).dates.len()
                >= min_days),
{
    let mut kept: Vec<usize> = Vec::new();
    let mut k: usize = 0;
    while k < series.len()
        invariant
            k <= series.len(),
            kept.len() <= k,
            forall|a: int, b: int| 0 <= a < b < kept.len() ==> kept[a] < kept[b],
            forall|a: int| 0 <= a < kept.len() ==> #[trigger] kept[a] < k,
            forall|m: int|
                0 <= m < k ==> (kept@.contains(m as usize) <==> (#[trigger] series[m]).dates.len()
                    >= min_days),
        decreases series.len() - k,
    {
        let ghost before = kept@;
        if series[k].dates.len() >= min_days {
            kept.push(k);
            proof {
                assert(kept@[before.len() as int] == k);
                assert forall|m: int| 0 <= m < k + 1 implies (kept@.contains(m as usize) <==> (
                #[trigger] series[m]).dates.len() >= min_days) by {
                    if m < k {
                        if before.contains(m as usize) {
                            let a = choose|a: int| 0 <= a < before.len() && before[a] == m as usize;
                            assert(kept@[a] == m as usize);
                        }
                        if kept@.contains(m as usize) {
                            let a = choose|a: int| 0 <= a < kept.len() && kept[a] == m as usize;
                            assert(a < before.len());
                            assert(before[a] == m as usize);
                        }
                    }
                }
            }
        } else {
            proof {
                assert forall|m: int| 0 <= m < k + 1 implies (kept@.contains(m as usize) <==> (
                #[trigger] series[m]).dates.len() >= min_days) by {
                    if m == k && kept@.contains(m as usize) {
                        let a = choose|a: int| 0 <= a < kept.len() && kept[a] == m as usize;
                        assert(kept[a] < k);
                    }
                }
            }
        }
        k = k + 1;
    }
    kept
}

} // verus!

//! Windowed indicators over a fixed input array.
//!
//! An indicator is undefined (`None`) until its window has filled; a defined
//! value is never confused with zero.

use vstd::prelude::*;
use crate::fixed::{abs, isqrt, isqrt_of, floor_div, all_within, MAX_DAYS, MAX_PRICE, VALUE_LIMIT, RATIO_LIMIT};

verus! {

/// Sum of `x[lo..hi]`.
pub open spec fn window_sum(x: Seq<i128>, lo: int, hi: int) -> int
    decreases hi - lo,
{
    if hi <= lo {
        0
    } else {
        window_sum(x, lo, hi - 1) + x[hi - 1]
    }
}

/// Sum of the squares of `x[lo..hi]`.
pub open spec fn window_sum_sq(x: Seq<i128>, lo: int, hi: int) -> int
    decreases hi - lo,
{
    if hi <= lo {
        0
    } else {
        window_sum_sq(x, lo, hi - 1) + x[hi - 1] * x[hi - 1]
    }
}

/// The mean of the `w` elements ending at index `i`, rounded down;
/// undefined while fewer than `w` elements are available, and for `w == 0`.
pub open spec fn mean_at(x: Seq<i128>, w: int, i: int) -> Option<int> {
    if w >= 1 && i + 1 >= w {
        Some(window_sum(x, i + 1 - w, i + 1) / w)
    } else {
        None
    }
}

/// The population standard deviation of the `w` elements ending at index
/// `i`, rounded down; undefined while fewer than `w` elements are available.
/// An empty window has deviation zero.
pub open spec fn std_at(x: Seq<i128>, w: int, i: int) -> Option<int> {
    if i + 1 >= w {
        if w <= 0 {
            Some(0)
        } else {
            let s = window_sum(x, i + 1 - w, i + 1);
            let q = window_sum_sq(x, i + 1 - w, i + 1);
            Some(isqrt(w * q - s * s) / w)
        }
    } else {
        None
    }
}

/// The larger of two numbers.
pub open spec fn max_int(a: int, b: int) -> int {
    if a >= b {
        a
    } else {
        b
    }
}

/// The largest of the three distances between high, low and previous close.
pub open spec fn true_range_spec(high: int, low: int, prev_close: int) -> int {
    max_int(max_int(abs(high - low), abs(high - prev_close)), abs(low - prev_close))
}

/// The true range of day `i`. Without a previous close (day 0) it is the
/// high-low distance, or zero where high or low is absent; on a later day
/// without high or low it is the distance between consecutive closes.
pub open spec fn true_range_at(
    high: Seq<Option<i128>>,
    low: Seq<Option<i128>>,
    close: Seq<i128>,
    i: int,
) -> int {
    match (high[i], low[i]) {
        (Some(h), Some(l)) => if i == 0 {
            abs(h - l)
        } else {
            true_range_spec(h as int, l as int, close[i - 1] as int)
        },
        _ => if i == 0 {
            0
        } else {
            abs(close[i] - close[i - 1])
        },
    }
}

/// The true ranges of all days.
pub open spec fn true_ranges(
    high: Seq<Option<i128>>,
    low: Seq<Option<i128>>,
    close: Seq<i128>,
) -> Seq<i128> {
    Seq::new(close.len(), |i: int| true_range_at(high, low, close, i) as i128)
}

/// The value of an optional machine integer.
pub open spec fn opt_int(o: Option<i128>) -> Option<int> {
    match o {
        Some(v) => Some(v as int),
        None => None,
    }
}

/// Present values of `s` have magnitude at most `limit`.
pub open spec fn all_opt_within(s: Seq<Option<i128>>, limit: int) -> bool {
    forall|i: int| 0 <= i < s.len() ==> (#[trigger] s[i] matches Some(v) ==> -limit <= v <= limit)
}

/// Whether the present values have magnitude at most `limit`.
pub fn is_all_opt_within(s: &[Option<i128>], limit: i128) -> (b: bool)
    requires
        limit >= 0,
    ensures
        b == all_opt_within(s@, limit as int),
{
    let mut i: usize = 0;
    while i < s.len()
        invariant
            i <= s.len(),
            limit >= 0,
            forall|j: int|
                0 <= j < i ==> (#[trigger] s[j] matches Some(v) ==> -limit <= v <= limit),
        decreases s.len() - i,
    {
        match s[i] {
            Some(v) => {
                if v < -limit || v > limit {
                    return false;
                }
            },
            None => {},
        }
        i = i + 1;
    }
    true
}

/// A window sum is its first element plus the sum of the rest.
pub proof fn lemma_window_sum_drop_first(x: Seq<i128>, lo: int, hi: int)
    requires
        lo < hi,
    ensures
        window_sum(x, lo, hi) == x[lo] + window_sum(x, lo + 1, hi),
        window_sum_sq(x, lo, hi) == x[lo] * x[lo] + window_sum_sq(x, lo + 1, hi),
    decreases hi - lo,
{
    if hi - 1 > lo {
        lemma_window_sum_drop_first(x, lo, hi - 1);
    } else {
        assert(window_sum(x, lo, lo) == 0);
        assert(window_sum(x, lo + 1, hi) == 0);
        assert(window_sum_sq(x, lo, lo) == 0);
        assert(window_sum_sq(x, lo + 1, hi) == 0);
    }
}

/// The sums over a window of elements of magnitude at most `limit` are
/// bounded by the length of the window times the bound of one term.
pub proof fn lemma_window_sum_bound(x: Seq<i128>, lo: int, hi: int, limit: int)
    requires
        0 <= lo <= hi <= x.len(),
        all_within(x, limit),
        limit >= 0,
    ensures
        -((hi - lo) * limit) <= window_sum(x, lo, hi) <= (hi - lo) * limit,
        0 <= window_sum_sq(x, lo, hi) <= (hi - lo) * (limit * limit),
    decreases hi - lo,
{
    if hi > lo {
        lemma_window_sum_bound(x, lo, hi - 1, limit);
        let v = x[hi - 1] as int;
        assert(0 <= v * v <= limit * limit) by (nonlinear_arith)
            requires
                -limit <= v <= limit,
        ;
        assert((hi - lo) * limit == (hi - 1 - lo) * limit + limit) by (nonlinear_arith);
        assert((hi - lo) * (limit * limit) == (hi - 1 - lo) * (limit * limit) + limit * limit)
            by (nonlinear_arith);
    } else {
        assert((hi - lo) * limit == 0) by (nonlinear_arith)
            requires
                hi - lo == 0,
        ;
        assert((hi - lo) * (limit * limit) == 0) by (nonlinear_arith)
            requires
                hi - lo == 0,
        ;
    }
}

/// A mean of values of magnitude at most `limit` has magnitude at most
/// `limit`, and a mean of values that are not negative is not negative.
pub proof fn lemma_mean_within(x: Seq<i128>, w: int, i: int, limit: int)
    requires
        0 <= i < x.len(),
        limit >= 0,
        all_within(x, limit),
        mean_at(x, w, i) is Some,
    ensures
        -limit <= mean_at(x, w, i)->Some_0 <= limit,
        (forall|j: int| 0 <= j < x.len() ==> x[j] >= 0) ==> mean_at(x, w, i)->Some_0 >= 0,
{
    let lo = i + 1 - w;
    let s = window_sum(x, lo, i + 1);
    lemma_window_sum_bound(x, lo, i + 1, limit);
    crate::fixed::lemma_div_monotone(s, w * limit, w);
    crate::fixed::lemma_div_monotone(-(w * limit), s, w);
    vstd::arithmetic::div_mod::lemma_div_multiples_vanish(limit, w);
    vstd::arithmetic::div_mod::lemma_div_multiples_vanish(-limit, w);
    assert(w * -limit == -(w * limit)) by (nonlinear_arith);
    if forall|j: int| 0 <= j < x.len() ==> x[j] >= 0 {
        lemma_window_sum_nonnegative(x, lo, i + 1);
        crate::fixed::lemma_div_monotone(0, s, w);
    }
}

/// A sum of elements that are not negative is not negative.
pub proof fn lemma_window_sum_nonnegative(x: Seq<i128>, lo: int, hi: int)
    requires
        0 <= lo <= hi <= x.len(),
        forall|j: int| 0 <= j < x.len() ==> x[j] >= 0,
    ensures
        window_sum(x, lo, hi) >= 0,
    decreases hi - lo,
{
    if hi > lo {
        lemma_window_sum_nonnegative(x, lo, hi - 1);
    }
}

/// Simple moving average over a trailing window of `w` elements: one
/// value for each element, undefined before the window has filled, and from
/// then on the mean of the last `w` elements rounded down. A window of one
/// element gives the elements themselves; a window as long as the input is
/// defined at the last index only.
pub fn rolling_ma(x: &[i128], w: usize) -> (out: Vec<Option<i128>>)
    requires
        x.len() <= MAX_DAYS,
        all_within(x@, VALUE_LIMIT as int),
    ensures
        out.len() == x.len(),
        forall|i: int| 0 <= i < x.len() ==> opt_int(#[trigger] out[i]) == mean_at(x@, w as int, i),
        forall|i: int| 0 <= i < x.len() && i + 1 < w ==> (#[trigger] out[i]) is None,
        forall|i: int|
            0 <= i < x.len() && 1 <= w <= i + 1 ==> ((#[trigger] out[i]) matches Some(m) && m * w
                <= window_sum(x@, i + 1 - w, i + 1) < (m + 1) * w),
        w == 1 ==> forall|i: int| 0 <= i < x.len() ==> (#[trigger] out[i]) == Some(x[i]),
        w == x.len() ==> forall|i: int|
            0 <= i < x.len() ==> ((#[trigger] out[i]) is Some <==> i == x.len() - 1),
{
    let n = x.len();
    let mut out: Vec<Option<i128>> = Vec::new();
    let mut sum: i128 = 0;
    let mut i: usize = 0;
    while i < n
        invariant
            n == x.len(),
            n <= MAX_DAYS,
            all_within(x@, VALUE_LIMIT as int),
            i <= n,
            out.len() == i,
            sum == window_sum(x@, if i >= w { i - w } else { 0 }, i as int),
            forall|j: int| 0 <= j < i ==> opt_int(#[trigger] out[j]) == mean_at(x@, w as int, j),
        decreases n - i,
    {
        let ghost lo: int = if i >= w { i - w } else { 0 };
        proof {
            lemma_window_sum_bound(x@, lo, i as int, VALUE_LIMIT as int);
            assert((i - lo) * VALUE_LIMIT <= MAX_DAYS * VALUE_LIMIT) by (nonlinear_arith)
                requires
                    0 <= i - lo <= MAX_DAYS,
            ;
        }
        sum = sum + x[i];
        if i >= w {
            proof {
                lemma_window_sum_drop_first(x@, lo, i + 1);
            }
            sum = sum - x[i - w];
        }
        if w >= 1 && i + 1 >= w {
            let m = floor_div(sum, w as i128);
            out.push(Some(m));
        } else {
            out.push(None);
        }
        i = i + 1;
    }
    proof {
        assert forall|i: int| 0 <= i < x.len() && 1 <= w implies (i + 1 < w ==> (
        #[trigger] out[i]) is None) && (w <= i + 1 ==> (out[i] matches Some(m) && m * w
            <= window_sum(x@, i + 1 - w, i + 1) < (m + 1) * w)) && (w == 1 ==> out[i] == Some(x[i]))
            && (w == x.len() ==> (out[i] is Some <==> i == x.len() - 1)) by {
            lemma_rolling_mean_window(x@, w as int, i);
            assert(opt_int(out[i]) == mean_at(x@, w as int, i));
        }
    }
    out
}

/// The largest of the three distances between high, low and previous close.
pub fn true_range(high: i128, low: i128, prev_close: i128) -> (tr: i128)
    requires
        -MAX_PRICE <= high <= MAX_PRICE,
        -MAX_PRICE <= low <= MAX_PRICE,
        -MAX_PRICE <= prev_close <= MAX_PRICE,
    ensures
        tr == true_range_spec(high as int, low as int, prev_close as int),
        0 <= tr <= 2 * MAX_PRICE,
{
    let a = distance(high, low);
    let b = distance(high, prev_close);
    let c = distance(low, prev_close);
    let ab = if a >= b { a } else { b };
    if ab >= c {
        ab
    } else {
        c
    }
}

/// The distance between two values.
pub fn distance(a: i128, b: i128) -> (d: i128)
    requires
        -MAX_PRICE <= a <= MAX_PRICE,
        -MAX_PRICE <= b <= MAX_PRICE,
    ensures
        d == abs(a - b),
        0 <= d <= 2 * MAX_PRICE,
{
    if a >= b {
        a - b
    } else {
        b - a
    }
}

/// Average true range: the trailing mean of `w` true ranges.
pub fn rolling_atr(high: &[Option<i128>], low: &[Option<i128>], close: &[i128], w: usize) -> (out:
    Vec<Option<i128>>)
    requires
        high.len() == close.len(),
        low.len() == close.len(),
        close.len() <= MAX_DAYS,
        all_within(close@, MAX_PRICE as int),
        all_opt_within(high@, MAX_PRICE as int),
        all_opt_within(low@, MAX_PRICE as int),
    ensures
        out.len() == close.len(),
        forall|i: int|
            0 <= i < close.len() ==> opt_int(#[trigger] out[i]) == mean_at(
                true_ranges(high@, low@, close@),
                w as int,
                i,
            ),
{
    let n = close.len();
    let mut trs: Vec<i128> = Vec::new();
    let mut i: usize = 0;
    while i < n
        invariant
            n == close.len(),
            high.len() == n,
            low.len() == n,
            all_within(close@, MAX_PRICE as int),
            all_opt_within(high@, MAX_PRICE as int),
            all_opt_within(low@, MAX_PRICE as int),
            i <= n,
            trs.len() == i,
            forall|j: int|
                0 <= j < i ==> #[trigger] trs[j] == true_range_at(high@, low@, close@, j) && 0
                    <= trs[j] <= 2 * MAX_PRICE,
        decreases n - i,
    {
        let tr: i128 = match (high[i], low[i]) {
            (Some(h), Some(l)) => {
                if i == 0 {
                    distance(h, l)
                } else {
                    true_range(h, l, close[i - 1])
                }
            },
            _ => {
                if i == 0 {
                    0
                } else {
                    distance(close[i], close[i - 1])
                }
            },
        };
        trs.push(tr);
        i = i + 1;
    }
    assert(trs@ =~= true_ranges(high@, low@, close@));
    rolling_ma(trs.as_slice(), w)
}

/// The root of a spread of `w` values of magnitude at most `RATIO_LIMIT`,
/// divided by `w`, is at most `RATIO_LIMIT`.
proof fn lemma_root_bound(root: int, spread: int, sum_sq: int, sum: int, w: int)
    requires
        w >= 1,
        0 <= sum_sq <= w * (RATIO_LIMIT * RATIO_LIMIT),
        spread == w * sum_sq - sum * sum,
        root == isqrt(spread),
        spread >= 0 ==> root >= 0 && root * root <= spread,
        spread < 0 ==> root == 0,
    ensures
        0 <= root / w <= RATIO_LIMIT,
{
    let l = RATIO_LIMIT as int;
    if spread >= 0 {
        assert(root <= w * l) by (nonlinear_arith)
            requires
                root >= 0,
                w >= 1,
                l >= 0,
                root * root <= w * sum_sq - sum * sum,
                0 <= sum_sq <= w * (l * l),
        {
            assert(sum * sum >= 0);
            assert(w * sum_sq <= w * (w * (l * l)));
            assert(w * (w * (l * l)) == (w * l) * (w * l));
            if root > w * l {
                assert(root * root > (w * l) * (w * l));
            }
        }
        crate::fixed::lemma_div_monotone(root, w * l, w);
        vstd::arithmetic::div_mod::lemma_div_multiples_vanish(l, w);
        crate::fixed::lemma_div_monotone(0, root, w);
    }
}

/// Population standard deviation over a trailing window of `w` elements.
pub fn rolling_std(values: &[i128], w: usize) -> (out: Vec<Option<i128>>)
    requires
        values.len() <= MAX_DAYS,
        all_within(values@, RATIO_LIMIT as int),
    ensures
        out.len() == values.len(),
        forall|i: int|
            0 <= i < values.len() ==> opt_int(#[trigger] out[i]) == std_at(values@, w as int, i),
        forall|i: int|
            0 <= i < values.len() ==> (#[trigger] out[i] matches Some(v) ==> 0 <= v <= RATIO_LIMIT),
{
    let n = values.len();
    let mut out: Vec<Option<i128>> = Vec::new();
    let mut sum: i128 = 0;
    let mut sum_sq: i128 = 0;
    let mut i: usize = 0;
    while i < n
        invariant
            n == values.len(),
            n <= MAX_DAYS,
            all_within(values@, RATIO_LIMIT as int),
            i <= n,
            out.len() == i,
            sum == window_sum(values@, if i >= w { i - w } else { 0 }, i as int),
            sum_sq == window_sum_sq(values@, if i >= w { i - w } else { 0 }, i as int),
            forall|j: int|
                0 <= j < i ==> opt_int(#[trigger] out[j]) == std_at(values@, w as int, j),
            forall|j: int|
                0 <= j < i ==> (#[trigger] out[j] matches Some(v) ==> 0 <= v <= RATIO_LIMIT),
        decreases n - i,
    {
        let ghost lo: int = if i >= w { i - w } else { 0 };
        let v = values[i];
        proof {
            lemma_window_sum_bound(values@, lo, i as int, RATIO_LIMIT as int);
            lemma_window_sum_bound(values@, lo, i + 1, RATIO_LIMIT as int);
            lemma_window_sum_bound(values@, if i >= w { lo + 1 } else { lo }, i + 1, RATIO_LIMIT as int);
            assert((i - lo) * RATIO_LIMIT <= MAX_DAYS * RATIO_LIMIT) by (nonlinear_arith)
                requires
                    0 <= i - lo <= MAX_DAYS,
            ;
            assert((i - lo) * (RATIO_LIMIT * RATIO_LIMIT) <= MAX_DAYS * (RATIO_LIMIT * RATIO_LIMIT))
                by (nonlinear_arith)
                requires
                    0 <= i - lo <= MAX_DAYS,
            ;
            assert(0 <= v * v <= RATIO_LIMIT * RATIO_LIMIT) by (nonlinear_arith)
                requires
                    -RATIO_LIMIT <= v <= RATIO_LIMIT,
            ;
        }
        sum = sum + v;
        sum_sq = sum_sq + v * v;
        if i >= w {
            let u = values[i - w];
            proof {
                lemma_window_sum_drop_first(values@, lo, i + 1);
                assert(0 <= u * u <= RATIO_LIMIT * RATIO_LIMIT) by (nonlinear_arith)
                    requires
                        -RATIO_LIMIT <= u <= RATIO_LIMIT,
                ;
            }
            sum = sum - u;
            sum_sq = sum_sq - u * u;
        }
        if i + 1 >= w {
            if w == 0 {
                out.push(Some(0));
            } else {
                let ghost lo2: int = i + 1 - w;
                proof {
                    lemma_window_sum_bound(values@, lo2, i + 1, RATIO_LIMIT as int);
                    assert(w * (RATIO_LIMIT * RATIO_LIMIT) <= MAX_DAYS * (RATIO_LIMIT * RATIO_LIMIT))
                        by (nonlinear_arith)
                        requires
                            0 <= w <= MAX_DAYS,
                    ;
                    assert(w * RATIO_LIMIT <= MAX_DAYS * RATIO_LIMIT) by (nonlinear_arith)
                        requires
                            0 <= w <= MAX_DAYS,
                    ;
                    assert(0 <= w * sum_sq <= MAX_DAYS * (MAX_DAYS * (RATIO_LIMIT * RATIO_LIMIT)))
                        by (nonlinear_arith)
                        requires
                            0 <= w <= MAX_DAYS,
                            0 <= sum_sq <= MAX_DAYS * (RATIO_LIMIT * RATIO_LIMIT),
                    ;
                    assert(0 <= sum * sum <= (MAX_DAYS * RATIO_LIMIT) * (MAX_DAYS * RATIO_LIMIT))
                        by (nonlinear_arith)
                        requires
                            -(MAX_DAYS * RATIO_LIMIT) <= sum <= MAX_DAYS * RATIO_LIMIT,
                    ;
                }
                let wide: i128 = w as i128;
                let spread: i128 = wide * sum_sq - sum * sum;
                let root = isqrt_of(spread);
                let sd = floor_div(root, wide);
                proof {
                    lemma_root_bound(root as int, spread as int, sum_sq as int, sum as int, w as int);
                }
                out.push(Some(sd));
            }
        } else {
            out.push(None);
        }
        i = i + 1;
    }
    out
}

/// A trailing mean is undefined before its window has filled, and from then
/// on it is the arithmetic mean of the last `w` elements rounded down to the
/// resolution of the elements. The mean over a window of one element is the
/// element itself; a window as long as the input is defined at the last
/// index only.
pub proof fn lemma_rolling_mean_window(x: Seq<i128>, w: int, i: int)
    requires
        w >= 1,
        0 <= i < x.len(),
    ensures
        i < w - 1 ==> mean_at(x, w, i) is None,
        i >= w - 1 ==> (mean_at(x, w, i) matches Some(m) && m * w <= window_sum(x, i + 1 - w, i + 1)
            < (m + 1) * w),
        w == 1 ==> mean_at(x, w, i) == Some(x[i] as int),
        w == x.len() ==> (mean_at(x, w, i) is Some <==> i == x.len() - 1),
{
    if i >= w - 1 {
        let s = window_sum(x, i + 1 - w, i + 1);
        let m = s / w;
        vstd::arithmetic::div_mod::lemma_fundamental_div_mod(s, w);
        assert(m * w <= s < (m + 1) * w) by (nonlinear_arith)
            requires
                s == w * m + s % w,
                0 <= s % w < w,
        ;
    }
    if w == 1 {
        assert(window_sum(x, i, i) == 0);
        assert(window_sum(x, i, i + 1) == x[i]);
    }
}

/// The number of elements of a window times the sum of their squares is at
/// least the square of their sum.
pub proof fn lemma_spread_nonnegative(x: Seq<i128>, lo: int, hi: int)
    requires
        0 <= lo <= hi <= x.len(),
    ensures
        (hi - lo) * window_sum_sq(x, lo, hi) >= window_sum(x, lo, hi) * window_sum(x, lo, hi),
    decreases hi - lo,
{
    if hi > lo {
        lemma_spread_nonnegative(x, lo, hi - 1);
        let n = hi - 1 - lo;
        let s = window_sum(x, lo, hi - 1);
        let q = window_sum_sq(x, lo, hi - 1);
        let v = x[hi - 1] as int;
        let t = q + n * (v * v) - 2 * (s * v);
        lemma_window_sum_sq_nonnegative(x, lo, hi - 1);
        lemma_spread_step(n, s, q, v);
        assert((n + 1) * (q + v * v) - (s + v) * (s + v) == (n * q - s * s) + t)
            by (nonlinear_arith)
            requires
                t == q + n * (v * v) - 2 * (s * v),
        ;
    } else {
        assert(window_sum(x, lo, hi) == 0);
        assert(window_sum_sq(x, lo, hi) == 0);
    }
}

/// A sum of squares is not negative.
pub proof fn lemma_window_sum_sq_nonnegative(x: Seq<i128>, lo: int, hi: int)
    requires
        0 <= lo <= hi <= x.len(),
    ensures
        window_sum_sq(x, lo, hi) >= 0,
    decreases hi - lo,
{
    if hi > lo {
        lemma_window_sum_sq_nonnegative(x, lo, hi - 1);
        let v = x[hi - 1] as int;
        assert(v * v >= 0) by (nonlinear_arith);
    }
}

/// The sum of the squared distances of `n` values from `v` is not
/// negative, written with their sum `s` and the sum `q` of their squares.
proof fn lemma_spread_step(n: int, s: int, q: int, v: int)
    requires
        n >= 0,
        q >= 0,
        n * q >= s * s,
    ensures
        q + n * (v * v) - 2 * (s * v) >= 0,
{
    let t = q + n * (v * v) - 2 * (s * v);
    if n == 0 {
        assert(s == 0) by (nonlinear_arith)
            requires
                s * s <= 0,
        ;
        assert(n * (v * v) == 0) by (nonlinear_arith)
            requires
                n == 0,
        ;
        assert(s * v == 0) by (nonlinear_arith)
            requires
                s == 0,
        ;
    } else {
        let a = n * v;
        assert(n * t == n * q + a * a - 2 * (s * a)) by (nonlinear_arith)
            requires
                t == q + n * (v * v) - 2 * (s * v),
                a == n * v,
        ;
        assert((s - a) * (s - a) == s * s + a * a - 2 * (s * a)) by (nonlinear_arith);
        assert((s - a) * (s - a) >= 0) by (nonlinear_arith);
        assert(t >= 0) by (nonlinear_arith)
            requires
                n > 0,
                n * t >= 0,
        ;
    }
}

/// A rolling deviation is undefined before its window has filled, and from
/// then on it is the population standard deviation of the last `w` elements
/// rounded down to the resolution of the elements: with `n` the spread `w`
/// times the sum of the squares less the square of the sum, which is `w`
/// squared times the variance, the deviation `s` is the largest with
/// `(s * w)` squared at most `n`.
pub proof fn lemma_rolling_std_window(x: Seq<i128>, w: int, i: int)
    requires
        w >= 1,
        0 <= i < x.len(),
    ensures
        i < w - 1 ==> std_at(x, w, i) is None,
        i >= w - 1 ==> (std_at(x, w, i) matches Some(s) && {
            let n = w * window_sum_sq(x, i + 1 - w, i + 1) - window_sum(x, i + 1 - w, i + 1)
                * window_sum(x, i + 1 - w, i + 1);
            s >= 0 && (s * w) * (s * w) <= n < ((s + 1) * w) * ((s + 1) * w)
        }),
{
    if i >= w - 1 {
        let lo = i + 1 - w;
        let sum = window_sum(x, lo, i + 1);
        let n = w * window_sum_sq(x, lo, i + 1) - sum * sum;
        lemma_spread_nonnegative(x, lo, i + 1);
        assert(n >= 0);
        // the integer square root exists
        lemma_isqrt_exists(n);
        let root = isqrt(n);
        assert(crate::fixed::is_isqrt(n, root));
        let s = root / w;
        vstd::arithmetic::div_mod::lemma_fundamental_div_mod(root, w);
        crate::fixed::lemma_div_monotone(0, root, w);
        assert(s * w <= root < (s + 1) * w) by (nonlinear_arith)
            requires
                root == w * s + root % w,
                0 <= root % w < w,
        ;
        assert((s * w) * (s * w) <= root * root) by (nonlinear_arith)
            requires
                0 <= s * w <= root,
        ;
        assert((root + 1) * (root + 1) <= ((s + 1) * w) * ((s + 1) * w)) by (nonlinear_arith)
            requires
                0 <= root + 1 <= (s + 1) * w,
        ;
    }
}

/// Every number that is not negative has an integer square root.
pub proof fn lemma_isqrt_exists(n: int)
    requires
        n >= 0,
    ensures
        crate::fixed::is_isqrt(n, isqrt(n)),
    decreases n,
{
    if n == 0 {
        assert(crate::fixed::is_isqrt(0, 0));
    } else {
        lemma_isqrt_exists(n - 1);
        let r = isqrt(n - 1);
        if (r + 1) * (r + 1) <= n {
            assert((r + 1) * (r + 1) == n) by (nonlinear_arith)
                requires
                    (r + 1) * (r + 1) <= n,
                    n - 1 < (r + 1) * (r + 1),
            ;
            assert(n < (r + 2) * (r + 2)) by (nonlinear_arith)
                requires
                    (r + 1) * (r + 1) == n,
                    r >= 0,
            ;
            assert(crate::fixed::is_isqrt(n, r + 1));
        } else {
            assert(crate::fixed::is_isqrt(n, r));
        }
    }
}

} // verus!

//! Statistics of a sequence of returns and of a path of compounded values.

use vstd::prelude::*;
use crate::fixed::{
    all_within, isqrt, isqrt_of, ratio, ratio_of, floor_div, lemma_div_monotone, EQUITY_LIMIT,
    MAX_DAYS, RATIO_LIMIT, SCALE,
};
use crate::indicators::max_int;

verus! {

/// A profit factor: gains over losses, or infinite where nothing was lost.
#[derive(Clone, Copy, Debug, PartialEq, Eq)]
pub enum ProfitFactor {
    Infinite,
    Finite(i128),
}

/// Sum of the first `k` elements.
pub open spec fn sum_of(x: Seq<i128>, k: int) -> int
    decreases k,
{
    if k <= 0 {
        0
    } else {
        sum_of(x, k - 1) + x[k - 1]
    }
}

/// Sum of the positive elements among the first `k`.
pub open spec fn gain_sum(x: Seq<i128>, k: int) -> int
    decreases k,
{
    if k <= 0 {
        0
    } else {
        gain_sum(x, k - 1) + if x[k - 1] > 0 {
            x[k - 1] as int
        } else {
            0
        }
    }
}

/// Sum of the negative elements among the first `k`.
pub open spec fn loss_sum(x: Seq<i128>, k: int) -> int
    decreases k,
{
    if k <= 0 {
        0
    } else {
        loss_sum(x, k - 1) + if x[k - 1] < 0 {
            x[k - 1] as int
        } else {
            0
        }
    }
}

/// Number of positive elements among the first `k`.
pub open spec fn gain_count(x: Seq<i128>, k: int) -> int
    decreases k,
{
    if k <= 0 {
        0
    } else {
        gain_count(x, k - 1) + if x[k - 1] > 0 {
            1int
        } else {
            0int
        }
    }
}

/// Number of negative elements among the first `k`.
pub open spec fn loss_count(x: Seq<i128>, k: int) -> int
    decreases k,
{
    if k <= 0 {
        0
    } else {
        loss_count(x, k - 1) + if x[k - 1] < 0 {
            1int
        } else {
            0int
        }
    }
}

/// Largest of zero and the first `k` elements.
pub open spec fn max_of(x: Seq<i128>, k: int) -> int
    decreases k,
{
    if k <= 0 {
        0
    } else {
        max_int(max_of(x, k - 1), x[k - 1] as int)
    }
}

/// Smallest of zero and the first `k` elements.
pub open spec fn min_of(x: Seq<i128>, k: int) -> int
    decreases k,
{
    if k <= 0 {
        0
    } else {
        -max_int(-min_of(x, k - 1), -x[k - 1])
    }
}

/// Sum of the squared distances of the first `k` elements from `center`.
pub open spec fn squared_deviation_sum(x: Seq<i128>, center: int, k: int) -> int
    decreases k,
{
    if k <= 0 {
        0
    } else {
        squared_deviation_sum(x, center, k - 1) + (x[k - 1] - center) * (x[k - 1] - center)
    }
}

/// The mean, rounded down; zero for no elements.
pub open spec fn mean_of(x: Seq<i128>) -> int {
    if x.len() == 0 {
        0
    } else {
        sum_of(x, x.len() as int) / (x.len() as int)
    }
}

/// The sample variance (divisor `n - 1`) about the rounded mean, rounded
/// down, in squared units; zero for fewer than two elements.
pub open spec fn sample_variance(x: Seq<i128>) -> int {
    if x.len() <= 1 {
        0
    } else {
        squared_deviation_sum(x, mean_of(x), x.len() as int) / (x.len() - 1)
    }
}

/// Mean over sample standard deviation; zero where the variance is zero.
pub open spec fn sharpe_of(x: Seq<i128>) -> int {
    let v = sample_variance(x);
    if v <= 0 || isqrt(v) <= 0 {
        0
    } else {
        ratio(mean_of(x), isqrt(v))
    }
}

/// The share of positive elements; zero for no elements.
pub open spec fn win_rate_of(x: Seq<i128>) -> int {
    if x.len() == 0 {
        0
    } else {
        gain_count(x, x.len() as int) * SCALE / (x.len() as int)
    }
}

/// The mean of the positive elements, rounded down; zero where there is none.
pub open spec fn average_gain(x: Seq<i128>) -> int {
    let n = gain_count(x, x.len() as int);
    if n == 0 {
        0
    } else {
        gain_sum(x, x.len() as int) / n
    }
}

/// The mean of the negative elements, rounded down; zero where there is none.
pub open spec fn average_loss(x: Seq<i128>) -> int {
    let n = loss_count(x, x.len() as int);
    if n == 0 {
        0
    } else {
        loss_sum(x, x.len() as int) / n
    }
}

/// Sum of gains over the magnitude of the sum of losses; infinite where the
/// losses sum to zero.
pub open spec fn profit_factor_of(x: Seq<i128>) -> ProfitFactor {
    let lost = -loss_sum(x, x.len() as int);
    if lost == 0 {
        ProfitFactor::Infinite
    } else {
        ProfitFactor::Finite(ratio(gain_sum(x, x.len() as int), lost) as i128)
    }
}

/// The highest of `start` and the first `k` points of the path.
pub open spec fn peak_of(path: Seq<i128>, start: int, k: int) -> int
    decreases k,
{
    if k <= 0 {
        start
    } else {
        max_int(peak_of(path, start, k - 1), path[k - 1] as int)
    }
}

/// The fractional decline of point `i` from the peak up to and including
/// it; zero where that peak is not positive.
pub open spec fn drawdown_at(path: Seq<i128>, start: int, i: int) -> int {
    let peak = peak_of(path, start, i + 1);
    if peak > 0 {
        ratio(peak - path[i], peak)
    } else {
        0
    }
}

/// The largest drawdown among the first `k` points of the path, with the
/// running peak starting at `start`.
pub open spec fn max_drawdown_of(path: Seq<i128>, start: int, k: int) -> int
    decreases k,
{
    if k <= 0 {
        0
    } else {
        max_int(max_drawdown_of(path, start, k - 1), drawdown_at(path, start, k - 1))
    }
}

/// The sums and counts of gains and losses, and the extremes.
pub struct Tally {
    pub sum: i128,
    pub gain_sum: i128,
    pub loss_sum: i128,
    pub gain_count: usize,
    pub loss_count: usize,
    pub max: i128,
    pub min: i128,
}

/// Tallies a sequence of returns.
pub fn tally(x: &Vec<i128>) -> (t: Tally)
    requires
        x.len() <= MAX_DAYS,
        all_within(x@, RATIO_LIMIT as int),
    ensures
        t.sum == sum_of(x@, x.len() as int),
        t.gain_sum == gain_sum(x@, x.len() as int),
        t.loss_sum == loss_sum(x@, x.len() as int),
        t.gain_count == gain_count(x@, x.len() as int),
        t.loss_count == loss_count(x@, x.len() as int),
        t.max == max_of(x@, x.len() as int),
        t.min == min_of(x@, x.len() as int),
        -(x.len() * RATIO_LIMIT) <= t.sum <= x.len() * RATIO_LIMIT,
        0 <= t.gain_sum <= x.len() * RATIO_LIMIT,
        -(x.len() * RATIO_LIMIT) <= t.loss_sum <= 0,
        t.gain_count <= x.len(),
        t.loss_count <= x.len(),
        t.gain_count == 0 ==> t.gain_sum == 0,
        t.loss_count == 0 <==> t.loss_sum == 0,
        0 <= t.max <= RATIO_LIMIT,
        -RATIO_LIMIT <= t.min <= 0,
{
    let n = x.len();
    let mut t = Tally { sum: 0, gain_sum: 0, loss_sum: 0, gain_count: 0, loss_count: 0, max: 0, min: 0 };
    let mut k: usize = 0;
    while k < n
        invariant
            n == x.len(),
            n <= MAX_DAYS,
            all_within(x@, RATIO_LIMIT as int),
            k <= n,
            t.sum == sum_of(x@, k as int),
            t.gain_sum == gain_sum(x@, k as int),
            t.loss_sum == loss_sum(x@, k as int),
            t.gain_count == gain_count(x@, k as int),
            t.loss_count == loss_count(x@, k as int),
            t.max == max_of(x@, k as int),
            t.min == min_of(x@, k as int),
            -(k * RATIO_LIMIT) <= t.sum <= k * RATIO_LIMIT,
            0 <= t.gain_sum <= k * RATIO_LIMIT,
            -(k * RATIO_LIMIT) <= t.loss_sum <= 0,
            t.gain_count <= k,
            t.loss_count <= k,
            t.gain_count == 0 ==> t.gain_sum == 0,
            t.loss_count == 0 <==> t.loss_sum == 0,
            0 <= t.max <= RATIO_LIMIT,
            -RATIO_LIMIT <= t.min <= 0,
        decreases n - k,
    {
        let v = x[k];
        proof {
            assert((k + 1) * RATIO_LIMIT == k * RATIO_LIMIT + RATIO_LIMIT) by (nonlinear_arith);
            assert(k * RATIO_LIMIT <= MAX_DAYS * RATIO_LIMIT) by (nonlinear_arith)
                requires
                    0 <= k <= MAX_DAYS,
            ;
        }
        t.sum = t.sum + v;
        if v > 0 {
            t.gain_sum = t.gain_sum + v;
            t.gain_count = t.gain_count + 1;
        }
        if v < 0 {
            t.loss_sum = t.loss_sum + v;
            t.loss_count = t.loss_count + 1;
        }
        if v > t.max {
            t.max = v;
        }
        if v < t.min {
            t.min = v;
        }
        k = k + 1;
    }
    t
}

/// The mean of a sequence of returns.
pub fn mean(x: &Vec<i128>) -> (m: i128)
    requires
        x.len() <= MAX_DAYS,
        all_within(x@, RATIO_LIMIT as int),
    ensures
        m == mean_of(x@),
        -RATIO_LIMIT <= m <= RATIO_LIMIT,
{
    if x.len() == 0 {
        0
    } else {
        let t = tally(x);
        let n = x.len() as i128;
        proof {
            lemma_div_monotone(t.sum as int, n * RATIO_LIMIT, n as int);
            lemma_div_monotone(-(n * RATIO_LIMIT), t.sum as int, n as int);
            vstd::arithmetic::div_mod::lemma_div_multiples_vanish(RATIO_LIMIT as int, n as int);
            vstd::arithmetic::div_mod::lemma_div_multiples_vanish(-RATIO_LIMIT as int, n as int);
            assert(n * -RATIO_LIMIT == -(n * RATIO_LIMIT)) by (nonlinear_arith);
        }
        floor_div(t.sum, n)
    }
}

/// The sample variance of a sequence of returns.
pub fn variance(x: &Vec<i128>) -> (v: i128)
    requires
        x.len() <= MAX_DAYS,
        all_within(x@, RATIO_LIMIT as int),
    ensures
        v == sample_variance(x@),
        0 <= v <= MAX_DAYS * (4 * (RATIO_LIMIT * RATIO_LIMIT)),
{
    let n = x.len();
    if n <= 1 {
        return 0;
    }
    let m = mean(x);
    let mut acc: i128 = 0;
    let mut k: usize = 0;
    while k < n
        invariant
            n == x.len(),
            n <= MAX_DAYS,
            all_within(x@, RATIO_LIMIT as int),
            -RATIO_LIMIT <= m <= RATIO_LIMIT,
            k <= n,
            acc == squared_deviation_sum(x@, m as int, k as int),
            0 <= acc <= k * (4 * (RATIO_LIMIT * RATIO_LIMIT)),
        decreases n - k,
    {
        let d: i128 = x[k] - m;
        proof {
            assert(0 <= d * d <= 4 * (RATIO_LIMIT * RATIO_LIMIT)) by (nonlinear_arith)
                requires
                    -2 * RATIO_LIMIT <= d <= 2 * RATIO_LIMIT,
            ;
            assert((k + 1) * (4 * (RATIO_LIMIT * RATIO_LIMIT)) == k * (4 * (RATIO_LIMIT
                * RATIO_LIMIT)) + 4 * (RATIO_LIMIT * RATIO_LIMIT)) by (nonlinear_arith);
            assert(k * (4 * (RATIO_LIMIT * RATIO_LIMIT)) <= MAX_DAYS * (4 * (RATIO_LIMIT
                * RATIO_LIMIT))) by (nonlinear_arith)
                requires
                    0 <= k <= MAX_DAYS,
            ;
        }
        acc = acc + d * d;
        k = k + 1;
    }
    proof {
        assert(n * (4 * (RATIO_LIMIT * RATIO_LIMIT)) <= MAX_DAYS * (4 * (RATIO_LIMIT
            * RATIO_LIMIT))) by (nonlinear_arith)
            requires
                0 <= n <= MAX_DAYS,
        ;
        lemma_div_monotone(0, acc as int, n - 1);
        vstd::arithmetic::div_mod::lemma_div_is_ordered_by_denominator(acc as int, 1, n - 1);
    }
    floor_div(acc, (n - 1) as i128)
}

/// Mean over sample standard deviation of a sequence of returns.
pub fn sharpe(x: &Vec<i128>) -> (s: i128)
    requires
        x.len() <= MAX_DAYS,
        all_within(x@, RATIO_LIMIT as int),
    ensures
        s == sharpe_of(x@),
        -RATIO_LIMIT <= s <= RATIO_LIMIT,
{
    let v = variance(x);
    if v <= 0 {
        return 0;
    }
    let sd = isqrt_of(v);
    if sd <= 0 {
        return 0;
    }
    let m = mean(x);
    ratio_of(m, sd)
}

/// The share of positive returns.
pub fn win_rate(x: &Vec<i128>) -> (r: i128)
    requires
        x.len() <= MAX_DAYS,
        all_within(x@, RATIO_LIMIT as int),
    ensures
        r == win_rate_of(x@),
        0 <= r <= SCALE,
{
    if x.len() == 0 {
        0
    } else {
        let t = tally(x);
        let n = x.len() as i128;
        let wins = t.gain_count as i128;
        proof {
            lemma_div_monotone(0, wins * SCALE, n as int);
            lemma_div_monotone(wins * SCALE, n * SCALE, n as int);
            vstd::arithmetic::div_mod::lemma_div_multiples_vanish(SCALE as int, n as int);
        }
        floor_div(wins * SCALE, n)
    }
}

/// Sum of gains over the magnitude of the sum of losses.
pub fn profit_factor(x: &Vec<i128>) -> (pf: ProfitFactor)
    requires
        x.len() <= MAX_DAYS,
        all_within(x@, RATIO_LIMIT as int),
    ensures
        pf == profit_factor_of(x@),
{
    let t = tally(x);
    let lost: i128 = -t.loss_sum;
    proof {
        assert(x.len() * RATIO_LIMIT <= MAX_DAYS * RATIO_LIMIT) by (nonlinear_arith)
            requires
                0 <= x.len() <= MAX_DAYS,
        ;
    }
    if lost == 0 {
        ProfitFactor::Infinite
    } else {
        ProfitFactor::Finite(ratio_of(t.gain_sum, lost))
    }
}

/// The largest fractional decline of a path from its running peak, the
/// peak starting at the first point.
pub fn max_drawdown(path: &Vec<i128>) -> (dd: i128)
    requires
        all_within(path@, EQUITY_LIMIT as int),
    ensures
        path.len() == 0 ==> dd == 0,
        path.len() > 0 ==> dd == max_drawdown_of(path@, path[0] as int, path.len() as int),
        0 <= dd <= RATIO_LIMIT,
{
    if path.len() == 0 {
        0
    } else {
        max_drawdown_from(path, path[0])
    }
}

/// The largest fractional decline of a path from its running peak, the
/// peak starting at `start`.
pub fn max_drawdown_from(path: &Vec<i128>, start: i128) -> (dd: i128)
    requires
        all_within(path@, EQUITY_LIMIT as int),
        -EQUITY_LIMIT <= start <= EQUITY_LIMIT,
    ensures
        dd == max_drawdown_of(path@, start as int, path.len() as int),
        0 <= dd <= RATIO_LIMIT,
{
    let n = path.len();
    let mut peak: i128 = start;
    let mut worst: i128 = 0;
    let mut k: usize = 0;
    while k < n
        invariant
            n == path.len(),
            all_within(path@, EQUITY_LIMIT as int),
            k <= n,
            -EQUITY_LIMIT <= peak <= EQUITY_LIMIT,
            peak == peak_of(path@, start as int, k as int),
            worst == max_drawdown_of(path@, start as int, k as int),
            0 <= worst <= RATIO_LIMIT,
        decreases n - k,
    {
        let e = path[k];
        if e > peak {
            peak = e;
        }
        let dd: i128 = if peak > 0 {
            ratio_of(peak - e, peak)
        } else {
            0
        };
        if dd > worst {
            worst = dd;
        }
        k = k + 1;
    }
    worst
}

} // verus!

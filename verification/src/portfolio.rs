//! The portfolio simulator: daily long-only weights from the raw weights of
//! the day before, stops, an optional short hedge in the baseline, and an
//! equity curve that compounds from `1`.

use vstd::prelude::*;
use crate::fixed::{
    all_within, clamp, clamp_to, coarse, compound, compound_of, fine_ratio, fine_ratio_of,
    floor_div, lemma_compound_monotone, lemma_compound_nonnegative, lemma_div_monotone,
    lemma_product_bound, scale_by, scaled, to_coarse, EQUITY_LIMIT, FINE, MAX_DAYS, RATIO_LIMIT,
    RETURN_LIMIT, SCALE,
};
use crate::indicators::opt_int;
use crate::stats::{max_drawdown, max_drawdown_of, sharpe, sharpe_of, win_rate, win_rate_of};
use crate::signals::{DailySignal, below, is_below};

verus! {

/// Largest number of assets in a portfolio.
pub const MAX_ASSETS: usize = 1_000_000;

/// Largest magnitude of the hedge weight: `10` as a ratio.
pub const HEDGE_LIMIT: i128 = 1_000_000_000;

/// The portfolio at the close of one day. Equity and return are in fine
/// units, `FINE` standing for `1`.
#[derive(Clone, Copy, Debug, PartialEq, Eq)]
pub struct PortfolioState {
    pub date: i32,
    pub equity: i128,
    pub daily_return: i128,
    pub active_position_count: usize,
}

/// The price of today is below the stop level of the day before.
pub open spec fn stopped_out(prev: DailySignal, now: DailySignal) -> bool {
    prev.stop_level matches Some(stop) && now.price < stop
}

/// The weight that an asset carries today: the raw weight of the day
/// before where that is positive and the stop of the day before has not
/// been broken, else zero.
pub open spec fn effective_weight(prev: DailySignal, now: DailySignal) -> int {
    if stopped_out(prev, now) {
        0
    } else if prev.raw_weight > 0 {
        prev.raw_weight as int
    } else {
        0
    }
}

/// The close-to-close return of an asset today, in fine units.
pub open spec fn asset_return(prev: DailySignal, now: DailySignal) -> int {
    fine_ratio(now.price - prev.price, prev.price as int)
}

/// Sum of the effective weights of the first `k` assets on day `i`.
pub open spec fn long_sum(sigs: Seq<Vec<DailySignal>>, i: int, k: int) -> int
    decreases k,
{
    if k <= 0 {
        0
    } else {
        long_sum(sigs, i, k - 1) + effective_weight(sigs[k - 1][i - 1], sigs[k - 1][i])
    }
}

/// Number of the first `k` assets with a positive effective weight on day `i`.
pub open spec fn long_count(sigs: Seq<Vec<DailySignal>>, i: int, k: int) -> int
    decreases k,
{
    if k <= 0 {
        0
    } else {
        long_count(sigs, i, k - 1) + if effective_weight(sigs[k - 1][i - 1], sigs[k - 1][i]) > 0 {
            1int
        } else {
            0int
        }
    }
}

/// Sum over the first `k` assets of effective weight times return on day `i`.
pub open spec fn weighted_return_sum(sigs: Seq<Vec<DailySignal>>, i: int, k: int) -> int
    decreases k,
{
    if k <= 0 {
        0
    } else {
        weighted_return_sum(sigs, i, k - 1) + effective_weight(sigs[k - 1][i - 1], sigs[k - 1][i])
            * asset_return(sigs[k - 1][i - 1], sigs[k - 1][i])
    }
}

/// The baseline is in a bear state: its close and its short average are
/// both below its long average.
pub open spec fn is_bear(b: DailySignal) -> bool {
    below(Some(b.price as int), opt_int(b.ma_long)) && below(
        opt_int(b.ma_short),
        opt_int(b.ma_long),
    )
}

/// The return of the hedge on day `i`: a short baseline position of the
/// size of the hedge weight, held when the hedge weight is positive and the
/// baseline was in a bear state the day before.
pub open spec fn hedge_return(baseline: Seq<DailySignal>, hedge_weight: int, i: int) -> int {
    if hedge_weight > 0 && is_bear(baseline[i - 1]) {
        scaled(asset_return(baseline[i - 1], baseline[i]), -hedge_weight)
    } else {
        0
    }
}

/// The return of the long book on day `i`: the returns of the assets with
/// a positive effective weight, each weighted by its share of the sum of
/// those weights; zero where no asset has one.
pub open spec fn long_return(sigs: Seq<Vec<DailySignal>>, i: int) -> int {
    let total = long_sum(sigs, i, sigs.len() as int);
    if total > 0 {
        weighted_return_sum(sigs, i, sigs.len() as int) / total
    } else {
        0
    }
}

/// The return of the portfolio on day `i`; day 0 has none.
pub open spec fn daily_return_at(
    sigs: Seq<Vec<DailySignal>>,
    baseline: Seq<DailySignal>,
    hedge_weight: int,
    i: int,
) -> int {
    if i <= 0 {
        0
    } else {
        clamp(
            hedge_return(baseline, hedge_weight, i) + long_return(sigs, i),
            -RETURN_LIMIT,
            RETURN_LIMIT as int,
        )
    }
}

/// The equity at the close of day `i`; it starts at `1`.
pub open spec fn equity_at(
    sigs: Seq<Vec<DailySignal>>,
    baseline: Seq<DailySignal>,
    hedge_weight: int,
    i: int,
) -> int
    decreases i,
{
    if i <= 0 {
        FINE as int
    } else {
        compound(
            equity_at(sigs, baseline, hedge_weight, i - 1),
            daily_return_at(sigs, baseline, hedge_weight, i),
        )
    }
}

/// Every asset has one valid signal per day of the baseline.
pub open spec fn inputs_ok(sigs: Seq<Vec<DailySignal>>, baseline: Seq<DailySignal>) -> bool {
    &&& sigs.len() <= MAX_ASSETS
    &&& forall|i: int| 0 <= i < baseline.len() ==> (#[trigger] baseline[i]).valid()
    &&& forall|a: int| 0 <= a < sigs.len() ==> (#[trigger] sigs[a]).len() == baseline.len()
    &&& forall|a: int, i: int|
        0 <= a < sigs.len() && 0 <= i < baseline.len() ==> (#[trigger] sigs[a][i]).valid()
}

/// Whether every asset has one valid signal per day of the baseline.
pub fn are_inputs_ok(sigs: &Vec<Vec<DailySignal>>, baseline: &Vec<DailySignal>) -> (b: bool)
    ensures
        b == inputs_ok(sigs@, baseline@),
{
    if sigs.len() > MAX_ASSETS {
        return false;
    }
    let n = baseline.len();
    let mut i: usize = 0;
    while i < n
        invariant
            n == baseline.len(),
            i <= n,
            forall|j: int| 0 <= j < i ==> (#[trigger] baseline[j]).valid(),
        decreases n - i,
    {
        if !baseline[i].is_valid() {
            return false;
        }
        i = i + 1;
    }
    let mut a: usize = 0;
    while a < sigs.len()
        invariant
            n == baseline.len(),
            a <= sigs.len(),
            forall|j: int| 0 <= j < n ==> (#[trigger] baseline[j]).valid(),
            forall|b: int| 0 <= b < a ==> (#[trigger] sigs[b]).len() == n,
            forall|b: int, j: int| 0 <= b < a && 0 <= j < n ==> (#[trigger] sigs[b][j]).valid(),
        decreases sigs.len() - a,
    {
        if sigs[a].len() != n {
            return false;
        }
        let mut k: usize = 0;
        while k < n
            invariant
                n == baseline.len(),
                a < sigs.len(),
                sigs[a as int].len() == n,
                k <= n,
                forall|j: int| 0 <= j < k ==> (#[trigger] sigs[a as int][j]).valid(),
            decreases n - k,
        {
            if !sigs[a][k].is_valid() {
                return false;
            }
            k = k + 1;
        }
        a = a + 1;
    }
    true
}

/// Equity starts at `1`.
pub proof fn lemma_equity_starts_at_one(
    sigs: Seq<Vec<DailySignal>>,
    baseline: Seq<DailySignal>,
    hedge_weight: int,
)
    ensures
        equity_at(sigs, baseline, hedge_weight, 0) == FINE,
{
}

/// Over a stretch of days on which no daily return is negative, an equity
/// that is not negative at the start of the stretch does not decrease.
pub proof fn lemma_equity_monotone(
    sigs: Seq<Vec<DailySignal>>,
    baseline: Seq<DailySignal>,
    hedge_weight: int,
    from: int,
    to: int,
)
    requires
        0 <= from <= to,
        equity_at(sigs, baseline, hedge_weight, from) >= 0,
        forall|i: int|
            from < i <= to ==> #[trigger] daily_return_at(sigs, baseline, hedge_weight, i) >= 0,
    ensures
        equity_at(sigs, baseline, hedge_weight, from) <= equity_at(
            sigs,
            baseline,
            hedge_weight,
            to,
        ),
        forall|i: int|
            from <= i < to ==> #[trigger] equity_at(sigs, baseline, hedge_weight, i) <= equity_at(
                sigs,
                baseline,
                hedge_weight,
                i + 1,
            ),
    decreases to - from,
{
    if from < to {
        lemma_equity_monotone(sigs, baseline, hedge_weight, from, to - 1);
        lemma_equity_bounded(sigs, baseline, hedge_weight, to - 1);
        assert(daily_return_at(sigs, baseline, hedge_weight, to) >= 0);
        lemma_compound_monotone(
            equity_at(sigs, baseline, hedge_weight, to - 1),
            daily_return_at(sigs, baseline, hedge_weight, to),
        );
    }
}

/// The weighted returns of the first `k` assets sum to at least minus the
/// sum of their weights: no asset loses more than it is worth.
pub proof fn lemma_weighted_return_floor(sigs: Seq<Vec<DailySignal>>, i: int, k: int)
    requires
        0 <= k <= sigs.len(),
        forall|a: int|
            0 <= a < sigs.len() ==> 0 < i < (#[trigger] sigs[a]).len() && sigs[a][i - 1].valid()
                && sigs[a][i].valid(),
    ensures
        long_sum(sigs, i, k) >= 0,
        weighted_return_sum(sigs, i, k) >= -(long_sum(sigs, i, k) * FINE),
    decreases k,
{
    if k > 0 {
        lemma_weighted_return_floor(sigs, i, k - 1);
        let prev = sigs[k - 1][i - 1];
        let now = sigs[k - 1][i];
        assert(prev.valid() && now.valid());
        let w = effective_weight(prev, now);
        let r = asset_return(prev, now);
        // the price stays above zero, so the return stays above minus one
        assert((now.price - prev.price) * FINE >= -(prev.price * FINE)) by (nonlinear_arith)
            requires
                now.price >= 0,
        ;
        lemma_div_monotone(
            -(prev.price * FINE),
            (now.price - prev.price) * FINE,
            prev.price as int,
        );
        vstd::arithmetic::div_mod::lemma_div_multiples_vanish(-FINE as int, prev.price as int);
        assert(prev.price * -FINE == -(prev.price * FINE)) by (nonlinear_arith);
        assert(r >= -FINE);
        assert(w * r >= -(w * FINE)) by (nonlinear_arith)
            requires
                w >= 0,
                r >= -FINE,
        ;
        assert((long_sum(sigs, i, k - 1) + w) * FINE == long_sum(sigs, i, k - 1) * FINE + w
            * FINE) by (nonlinear_arith);
    }
}

/// Without a hedge the return of a day is at least minus one.
pub proof fn lemma_daily_return_floor(
    sigs: Seq<Vec<DailySignal>>,
    baseline: Seq<DailySignal>,
    hedge_weight: int,
    i: int,
)
    requires
        inputs_ok(sigs, baseline),
        hedge_weight <= 0,
        0 <= i < baseline.len(),
    ensures
        daily_return_at(sigs, baseline, hedge_weight, i) >= -FINE,
{
    if i > 0 {
        assert forall|a: int| 0 <= a < sigs.len() implies 0 < i < (#[trigger] sigs[a]).len()
            && sigs[a][i - 1].valid() && sigs[a][i].valid() by {
            assert(sigs[a][i - 1].valid());
            assert(sigs[a][i].valid());
        }
        lemma_weighted_return_floor(sigs, i, sigs.len() as int);
        let total = long_sum(sigs, i, sigs.len() as int);
        let weighted = weighted_return_sum(sigs, i, sigs.len() as int);
        if total > 0 {
            lemma_div_monotone(-(total * FINE), weighted, total);
            vstd::arithmetic::div_mod::lemma_div_multiples_vanish(-FINE as int, total);
            assert(total * -FINE == -(total * FINE)) by (nonlinear_arith);
        }
    }
}

/// Without a hedge the equity is never negative.
pub proof fn lemma_equity_nonnegative(
    sigs: Seq<Vec<DailySignal>>,
    baseline: Seq<DailySignal>,
    hedge_weight: int,
    i: int,
)
    requires
        inputs_ok(sigs, baseline),
        hedge_weight <= 0,
        0 <= i < baseline.len(),
    ensures
        equity_at(sigs, baseline, hedge_weight, i) >= 0,
    decreases i,
{
    if i > 0 {
        lemma_equity_nonnegative(sigs, baseline, hedge_weight, i - 1);
        lemma_daily_return_floor(sigs, baseline, hedge_weight, i);
        lemma_equity_bounded(sigs, baseline, hedge_weight, i - 1);
        lemma_compound_nonnegative(
            equity_at(sigs, baseline, hedge_weight, i - 1),
            daily_return_at(sigs, baseline, hedge_weight, i),
        );
    }
}

/// Without a hedge, equity does not decrease over a stretch of days on
/// which no daily return is negative.
pub proof fn lemma_equity_monotone_without_hedge(
    sigs: Seq<Vec<DailySignal>>,
    baseline: Seq<DailySignal>,
    hedge_weight: int,
    from: int,
    to: int,
)
    requires
        inputs_ok(sigs, baseline),
        hedge_weight <= 0,
        0 <= from <= to < baseline.len(),
        forall|i: int|
            from < i <= to ==> #[trigger] daily_return_at(sigs, baseline, hedge_weight, i) >= 0,
    ensures
        equity_at(sigs, baseline, hedge_weight, from) <= equity_at(
            sigs,
            baseline,
            hedge_weight,
            to,
        ),
{
    lemma_equity_nonnegative(sigs, baseline, hedge_weight, from);
    lemma_equity_monotone(sigs, baseline, hedge_weight, from, to);
}

/// Equity never leaves the range in which it saturates.
pub proof fn lemma_equity_bounded(
    sigs: Seq<Vec<DailySignal>>,
    baseline: Seq<DailySignal>,
    hedge_weight: int,
    i: int,
)
    ensures
        -EQUITY_LIMIT <= equity_at(sigs, baseline, hedge_weight, i) <= EQUITY_LIMIT,
{
}

/// The sums of one day over all assets: effective weights, weighted
/// returns, and the number of assets held.
pub fn day_totals(sigs: &Vec<Vec<DailySignal>>, i: usize) -> (t: (i128, i128, usize))
    requires
        sigs.len() <= MAX_ASSETS,
        i >= 1,
        forall|a: int| 0 <= a < sigs.len() ==> i < (#[trigger] sigs[a]).len(),
        forall|a: int|
            0 <= a < sigs.len() ==> (#[trigger] sigs[a])[i - 1].valid() && sigs[a][i as int].valid(),
    ensures
        t.0 == long_sum(sigs@, i as int, sigs.len() as int),
        t.1 == weighted_return_sum(sigs@, i as int, sigs.len() as int),
        t.2 == long_count(sigs@, i as int, sigs.len() as int),
        0 <= t.0 <= sigs.len() * SCALE,
        -(t.0 * RETURN_LIMIT) <= t.1 <= t.0 * RETURN_LIMIT,
        t.2 <= sigs.len(),
        t.0 > 0 <==> t.2 > 0,
{
    let m = sigs.len();
    let mut total: i128 = 0;
    let mut weighted: i128 = 0;
    let mut count: usize = 0;
    let mut a: usize = 0;
    while a < m
        invariant
            m == sigs.len(),
            m <= MAX_ASSETS,
            i >= 1,
            forall|b: int| 0 <= b < sigs.len() ==> i < (#[trigger] sigs[b]).len(),
            forall|b: int|
                0 <= b < sigs.len() ==> (#[trigger] sigs[b])[i - 1].valid() && sigs[b][i as int].valid(),
            a <= m,
            total == long_sum(sigs@, i as int, a as int),
            weighted == weighted_return_sum(sigs@, i as int, a as int),
            count == long_count(sigs@, i as int, a as int),
            0 <= total <= a * SCALE,
            -(total * RETURN_LIMIT) <= weighted <= total * RETURN_LIMIT,
            count <= a,
            total > 0 <==> count > 0,
        decreases m - a,
    {
        let prev = sigs[a][i - 1];
        let now = sigs[a][i];
        let w = held_weight(&prev, &now);
        let r = fine_ratio_of(now.price - prev.price, prev.price);
        proof {
            assert(-(w * RETURN_LIMIT) <= w * r <= w * RETURN_LIMIT) by (nonlinear_arith)
                requires
                    0 <= w,
                    -RETURN_LIMIT <= r <= RETURN_LIMIT,
            ;
            assert(w * RETURN_LIMIT <= SCALE * RETURN_LIMIT) by (nonlinear_arith)
                requires
                    0 <= w <= SCALE,
            ;
            assert((total + w) * RETURN_LIMIT == total * RETURN_LIMIT + w * RETURN_LIMIT)
                by (nonlinear_arith);
            assert(total * RETURN_LIMIT <= MAX_ASSETS * SCALE * RETURN_LIMIT) by (nonlinear_arith)
                requires
                    0 <= total <= MAX_ASSETS * SCALE,
            ;
        }
        total = total + w;
        weighted = weighted + w * r;
        if w > 0 {
            count = count + 1;
        }
        a = a + 1;
    }
    (total, weighted, count)
}

/// The weight that an asset carries today.
pub fn held_weight(prev: &DailySignal, now: &DailySignal) -> (w: i128)
    requires
        prev.valid(),
    ensures
        w == effective_weight(*prev, *now),
        0 <= w <= SCALE,
{
    let stopped = match prev.stop_level {
        Some(stop) => now.price < stop,
        None => false,
    };
    if stopped {
        0
    } else if prev.raw_weight > 0 {
        prev.raw_weight
    } else {
        0
    }
}

/// Whether the baseline is in a bear state.
pub fn baseline_is_bear(b: &DailySignal) -> (bear: bool)
    ensures
        bear == is_bear(*b),
{
    is_below(Some(b.price), b.ma_long) && is_below(b.ma_short, b.ma_long)
}

/// An equity curve starts at `1` with no return and no position, and a
/// day with a return that is not negative does not lower an equity that is
/// not negative. Without a hedge the equity is never negative, and so it
/// does not fall over any stretch of days on which no return is negative.
pub open spec fn curve_laws(out: Seq<PortfolioState>, hedged: bool) -> bool {
    &&& out.len() > 0 ==> out[0].equity == FINE && out[0].daily_return == 0
        && out[0].active_position_count == 0
    &&& forall|i: int|
        1 <= i < out.len() && out[i - 1].equity >= 0 && (#[trigger] out[i]).daily_return >= 0
            ==> out[i].equity >= out[i - 1].equity
    &&& !hedged ==> forall|i: int| 0 <= i < out.len() ==> (#[trigger] out[i]).equity >= 0
    &&& !hedged ==> forall|i: int, j: int|
        #![trigger out[i], out[j]]
        0 <= i <= j < out.len() && (forall|k: int| i < k <= j ==> (#[trigger] out[k]).daily_return >= 0)
            ==> out[i].equity <= out[j].equity
}

/// Simulates the portfolio day by day. Day 0 holds nothing and has equity
/// `1`; each later day acts on the signals of the day before. Over a
/// stretch of days on which no return is negative, the equity does not
/// fall; with a hedge this holds while the equity is not negative.
pub fn simulate_portfolio(
    sigs: &Vec<Vec<DailySignal>>,
    baseline: &Vec<DailySignal>,
    hedge_weight: i128,
) -> (out: Vec<PortfolioState>)
    requires
        inputs_ok(sigs@, baseline@),
        -HEDGE_LIMIT <= hedge_weight <= HEDGE_LIMIT,
    ensures
        out.len() == baseline.len(),
        forall|i: int|
            0 <= i < out.len() ==> {
                &&& (#[trigger] out[i]).date == baseline[i].date
                &&& out[i].equity == equity_at(sigs@, baseline@, hedge_weight as int, i)
                &&& out[i].daily_return == daily_return_at(
                    sigs@,
                    baseline@,
                    hedge_weight as int,
                    i,
                )
                &&& out[i].active_position_count == if i == 0 {
                    0
                } else {
                    long_count(sigs@, i, sigs.len() as int)
                }
            },
        forall|i: int|
            0 <= i < out.len() ==> -EQUITY_LIMIT <= (#[trigger] out[i]).equity <= EQUITY_LIMIT
                && -RETURN_LIMIT <= out[i].daily_return <= RETURN_LIMIT,
        curve_laws(out@, hedge_weight > 0),
{
    let n = baseline.len();
    let mut out: Vec<PortfolioState> = Vec::new();
    if n == 0 {
        return out;
    }
    let mut equity: i128 = FINE;
    out.push(
        PortfolioState { date: baseline[0].date, equity, daily_return: 0, active_position_count: 0 },
    );
    let mut i: usize = 1;
    while i < n
        invariant
            n == baseline.len(),
            inputs_ok(sigs@, baseline@),
            -HEDGE_LIMIT <= hedge_weight <= HEDGE_LIMIT,
            1 <= i <= n,
            out.len() == i,
            equity == equity_at(sigs@, baseline@, hedge_weight as int, i - 1),
            -EQUITY_LIMIT <= equity <= EQUITY_LIMIT,
            forall|j: int|
                0 <= j < i ==> {
                    &&& (#[trigger] out[j]).date == baseline[j].date
                    &&& out[j].equity == equity_at(sigs@, baseline@, hedge_weight as int, j)
                    &&& out[j].daily_return == daily_return_at(
                        sigs@,
                        baseline@,
                        hedge_weight as int,
                        j,
                    )
                    &&& out[j].active_position_count == if j == 0 {
                        0
                    } else {
                        long_count(sigs@, j, sigs.len() as int)
                    }
                },
            forall|j: int|
                0 <= j < i ==> -EQUITY_LIMIT <= (#[trigger] out[j]).equity <= EQUITY_LIMIT
                    && -RETURN_LIMIT <= out[j].daily_return <= RETURN_LIMIT,
        decreases n - i,
    {
        proof {
            assert forall|a: int| 0 <= a < sigs.len() implies (#[trigger] sigs[a])[i - 1].valid()
                && sigs[a][i as int].valid() by {
                assert(sigs@[a][i - 1].valid());
                assert(sigs@[a][i as int].valid());
            }
        }
        let (total, weighted, count) = day_totals(sigs, i);
        let long_part: i128 = if total > 0 {
            proof {
                lemma_div_monotone(weighted as int, total * RETURN_LIMIT, total as int);
                lemma_div_monotone(-(total * RETURN_LIMIT), weighted as int, total as int);
                vstd::arithmetic::div_mod::lemma_div_multiples_vanish(
                    RETURN_LIMIT as int,
                    total as int,
                );
                vstd::arithmetic::div_mod::lemma_div_multiples_vanish(
                    -RETURN_LIMIT as int,
                    total as int,
                );
                assert(total * -RETURN_LIMIT == -(total * RETURN_LIMIT)) by (nonlinear_arith);
            }
            floor_div(weighted, total)
        } else {
            0
        };
        let hedge_part: i128 = if hedge_weight > 0 && baseline_is_bear(&baseline[i - 1]) {
            let prev = baseline[i - 1];
            let now = baseline[i];
            let r = fine_ratio_of(now.price - prev.price, prev.price);
            proof {
                lemma_product_bound(
                    r as int,
                    -hedge_weight as int,
                    RETURN_LIMIT as int,
                    HEDGE_LIMIT as int,
                );
                lemma_div_monotone(r * -hedge_weight, RETURN_LIMIT * HEDGE_LIMIT, SCALE as int);
                lemma_div_monotone(-(RETURN_LIMIT * HEDGE_LIMIT), r * -hedge_weight, SCALE as int);
            }
            scale_by(r, -hedge_weight)
        } else {
            0
        };
        let daily_return = clamp_to(hedge_part + long_part, -RETURN_LIMIT, RETURN_LIMIT);
        equity = compound_of(equity, daily_return);
        out.push(
            PortfolioState {
                date: baseline[i].date,
                equity,
                daily_return,
                active_position_count: count,
            },
        );
        i = i + 1;
    }
    proof {
        lemma_curve_laws(out@, sigs@, baseline@, hedge_weight as int);
    }
    out
}

/// A curve that holds the equity and the return of every day obeys the
/// laws of equity curves.
pub proof fn lemma_curve_laws(
    out: Seq<PortfolioState>,
    sigs: Seq<Vec<DailySignal>>,
    baseline: Seq<DailySignal>,
    hedge_weight: int,
)
    requires
        inputs_ok(sigs, baseline),
        out.len() == baseline.len(),
        forall|i: int|
            0 <= i < out.len() ==> {
                &&& (#[trigger] out[i]).equity == equity_at(sigs, baseline, hedge_weight, i)
                &&& out[i].daily_return == daily_return_at(sigs, baseline, hedge_weight, i)
                &&& i == 0 ==> out[i].active_position_count == 0
            },
    ensures
        curve_laws(out, hedge_weight > 0),
{
    assert forall|i: int|
        1 <= i < out.len() && out[i - 1].equity >= 0 && (#[trigger] out[i]).daily_return
            >= 0 implies out[i].equity >= out[i - 1].equity by {
        lemma_equity_bounded(sigs, baseline, hedge_weight, i - 1);
        lemma_compound_monotone(
            equity_at(sigs, baseline, hedge_weight, i - 1),
            daily_return_at(sigs, baseline, hedge_weight, i),
        );
    }
    if hedge_weight <= 0 {
        assert forall|i: int| 0 <= i < out.len() implies (#[trigger] out[i]).equity >= 0 by {
            lemma_equity_nonnegative(sigs, baseline, hedge_weight, i);
        }
        assert forall|i: int, j: int|
            #![trigger out[i], out[j]]
            0 <= i <= j < out.len() && (forall|k: int|
                i < k <= j ==> (#[trigger] out[k]).daily_return >= 0) implies out[i].equity
            <= out[j].equity by {
            assert forall|k: int| i < k <= j implies #[trigger] daily_return_at(
                sigs,
                baseline,
                hedge_weight,
                k,
            ) >= 0 by {
                assert(out[k].daily_return >= 0);
            }
            lemma_equity_monotone_without_hedge(sigs, baseline, hedge_weight, i, j);
        }
    }
}

/// The square root of the number of days in a year, 365.25, as a ratio.
pub const ANNUALIZATION: i128 = 1_911_151_485;

/// The statistics of an equity curve. The total return is in fine units;
/// the other statistics are ratios.
#[derive(Clone, Copy, Debug, PartialEq, Eq)]
pub struct PortfolioMetrics {
    /// Number of days of the curve, counted as at least one.
    pub days: usize,
    /// The last equity less one, in fine units.
    pub total_return: i128,
    /// Sharpe ratio of the days with a return other than zero, annualised.
    pub sharpe: i128,
    pub max_drawdown: i128,
    /// Share of positive returns among the days with a return other than zero.
    pub win_rate: i128,
}

/// The returns other than zero among the first `k` days, in order, as
/// ratios rounded down.
pub open spec fn active_returns(states: Seq<PortfolioState>, k: int) -> Seq<i128>
    decreases k,
{
    if k <= 0 {
        Seq::empty()
    } else if states[k - 1].daily_return != 0 {
        active_returns(states, k - 1).push(coarse(states[k - 1].daily_return as int) as i128)
    } else {
        active_returns(states, k - 1)
    }
}

/// The equity of each day.
pub open spec fn equity_path(states: Seq<PortfolioState>) -> Seq<i128> {
    Seq::new(states.len(), |i: int| states[i].equity)
}

/// Equity and returns are within the ranges in which they saturate.
pub open spec fn curve_ok(states: Seq<PortfolioState>) -> bool {
    &&& states.len() <= MAX_DAYS
    &&& forall|i: int|
        0 <= i < states.len() ==> -EQUITY_LIMIT <= (#[trigger] states[i]).equity <= EQUITY_LIMIT
            && -RETURN_LIMIT <= states[i].daily_return <= RETURN_LIMIT
}

/// Whether equity and returns are within the ranges in which they
/// saturate.
pub fn is_curve_ok(states: &Vec<PortfolioState>) -> (b: bool)
    ensures
        b == curve_ok(states@),
{
    if states.len() > MAX_DAYS {
        return false;
    }
    let mut i: usize = 0;
    while i < states.len()
        invariant
            i <= states.len(),
            states.len() <= MAX_DAYS,
            forall|j: int|
                0 <= j < i ==> -EQUITY_LIMIT <= (#[trigger] states[j]).equity <= EQUITY_LIMIT
                    && -RETURN_LIMIT <= states[j].daily_return <= RETURN_LIMIT,
        decreases states.len() - i,
    {
        let s = states[i];
        if s.equity < -EQUITY_LIMIT || s.equity > EQUITY_LIMIT || s.daily_return < -RETURN_LIMIT
            || s.daily_return > RETURN_LIMIT {
            return false;
        }
        i = i + 1;
    }
    true
}

/// What the statistics of an equity curve are.
pub open spec fn metrics_ok(m: PortfolioMetrics, states: Seq<PortfolioState>) -> bool {
    let active = active_returns(states, states.len() as int);
    &&& m.days == if states.len() == 0 {
        1
    } else {
        states.len()
    }
    &&& m.total_return == if states.len() == 0 {
        0
    } else {
        states[states.len() - 1].equity - FINE
    }
    &&& m.sharpe == scaled(sharpe_of(active), ANNUALIZATION as int)
    &&& m.max_drawdown == if states.len() == 0 {
        0
    } else {
        max_drawdown_of(equity_path(states), states[0].equity as int, states.len() as int)
    }
    &&& m.win_rate == win_rate_of(active)
}

/// The statistics of an equity curve.
pub fn portfolio_metrics(states: &Vec<PortfolioState>) -> (m: PortfolioMetrics)
    requires
        curve_ok(states@),
    ensures
        metrics_ok(m, states@),
{
    let n = states.len();
    let mut active: Vec<i128> = Vec::new();
    let mut path: Vec<i128> = Vec::new();
    let mut i: usize = 0;
    while i < n
        invariant
            n == states.len(),
            curve_ok(states@),
            i <= n,
            active@ == active_returns(states@, i as int),
            active.len() <= i,
            path@ == equity_path(states@).subrange(0, i as int),
            all_within(active@, RATIO_LIMIT as int),
            all_within(path@, EQUITY_LIMIT as int),
        decreases n - i,
    {
        let s = states[i];
        if s.daily_return != 0 {
            active.push(to_coarse(s.daily_return));
        }
        path.push(s.equity);
        proof {
            assert(path@ =~= equity_path(states@).subrange(0, i + 1));
        }
        i = i + 1;
    }
    proof {
        assert(path@ =~= equity_path(states@));
    }
    let daily = sharpe(&active);
    proof {
        lemma_product_bound(
            daily as int,
            ANNUALIZATION as int,
            RATIO_LIMIT as int,
            ANNUALIZATION as int,
        );
    }
    PortfolioMetrics {
        days: if n == 0 {
            1
        } else {
            n
        },
        total_return: if n == 0 {
            0
        } else {
            states[n - 1].equity - FINE
        },
        sharpe: scale_by(daily, ANNUALIZATION),
        max_drawdown: max_drawdown(&path),
        win_rate: win_rate(&active),
    }
}

} // verus!

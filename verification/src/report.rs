//! Figures for the reports: the averages of the profitable strategies and
//! the sizes of the positions of a portfolio.

use vstd::prelude::*;
use crate::analyzer::StrategyAnalysis;
use crate::fixed::{
    ratio, ratio_of, floor_div, lemma_product_bound, lemma_div_monotone, EQUITY_LIMIT, MAX_PRICE,
    RATIO_LIMIT, SCALE,
};
use crate::playbook::TradePlan;
use crate::portfolio::MAX_ASSETS;
use crate::trade::{ComputedValues, MAX_PORTFOLIO};

verus! {

/// The averages of the profitable strategies.
#[derive(Clone, Copy, Debug, PartialEq, Eq)]
pub struct ProfitableSummary {
    pub total: usize,
    pub profitable: usize,
    /// Share of profitable strategies, in percent.
    pub profitable_percent: i128,
    /// Mean of the total returns, in fine units.
    pub avg_return: i128,
    pub avg_win_rate: i128,
    pub avg_sharpe: i128,
}

/// Number of profitable analyses among the first `k`.
pub open spec fn profitable_count(analyses: Seq<StrategyAnalysis>, k: int) -> int
    decreases k,
{
    if k <= 0 {
        0
    } else {
        profitable_count(analyses, k - 1) + if analyses[k - 1].profitable() {
            1int
        } else {
            0int
        }
    }
}

/// Sum of the total returns of the profitable analyses among the first
/// `k`.
pub open spec fn return_sum(analyses: Seq<StrategyAnalysis>, k: int) -> int
    decreases k,
{
    if k <= 0 {
        0
    } else {
        return_sum(analyses, k - 1) + if analyses[k - 1].profitable() {
            analyses[k - 1].total_return as int
        } else {
            0
        }
    }
}

/// Sum of the win rates of the profitable analyses among the first `k`.
pub open spec fn win_rate_sum(analyses: Seq<StrategyAnalysis>, k: int) -> int
    decreases k,
{
    if k <= 0 {
        0
    } else {
        win_rate_sum(analyses, k - 1) + if analyses[k - 1].profitable() {
            analyses[k - 1].win_rate as int
        } else {
            0
        }
    }
}

/// Sum of the Sharpe ratios of the profitable analyses among the first `k`.
pub open spec fn sharpe_sum(analyses: Seq<StrategyAnalysis>, k: int) -> int
    decreases k,
{
    if k <= 0 {
        0
    } else {
        sharpe_sum(analyses, k - 1) + if analyses[k - 1].profitable() {
            analyses[k - 1].sharpe_ratio as int
        } else {
            0
        }
    }
}

/// What the summary of a set of analyses is: the counts, the share of the
/// profitable ones in percent, and the means, rounded down, of their total
/// returns, win rates and Sharpe ratios.
pub open spec fn summary_ok(s: ProfitableSummary, analyses: Seq<StrategyAnalysis>) -> bool {
    let n = analyses.len() as int;
    let count = profitable_count(analyses, n);
    &&& s.total == n
    &&& s.profitable == count
    &&& s.profitable_percent == ratio(count, n) * 100
    &&& s.avg_return == return_sum(analyses, n) / count
    &&& s.avg_win_rate == win_rate_sum(analyses, n) / count
    &&& s.avg_sharpe == sharpe_sum(analyses, n) / count
}

/// The summary of the profitable strategies; `None` where none is
/// profitable.
pub fn summarize_profitable(analyses: &Vec<StrategyAnalysis>) -> (s: Option<ProfitableSummary>)
    requires
        analyses.len() <= MAX_ASSETS,
        forall|i: int| 0 <= i < analyses.len() ==> (#[trigger] analyses[i]).wf(),
    ensures
        s is Some <==> profitable_count(analyses@, analyses.len() as int) > 0,
        s matches Some(v) ==> summary_ok(v, analyses@),
{
    let n = analyses.len();
    let mut count: usize = 0;
    let mut gains: i128 = 0;
    let mut win_rates: i128 = 0;
    let mut sharpes: i128 = 0;
    let mut k: usize = 0;
    while k < n
        invariant
            n == analyses.len(),
            n <= MAX_ASSETS,
            forall|i: int| 0 <= i < analyses.len() ==> (#[trigger] analyses[i]).wf(),
            k <= n,
            count == profitable_count(analyses@, k as int),
            count <= k,
            gains == return_sum(analyses@, k as int),
            win_rates == win_rate_sum(analyses@, k as int),
            sharpes == sharpe_sum(analyses@, k as int),
            -(k * (2 * EQUITY_LIMIT)) <= gains <= k * (2 * EQUITY_LIMIT),
            0 <= win_rates <= k * SCALE,
            -(k * RATIO_LIMIT) <= sharpes <= k * RATIO_LIMIT,
        decreases n - k,
    {
        let a = &analyses[k];
        proof {
            assert(analyses[k as int].wf());
            assert((k + 1) * (2 * EQUITY_LIMIT) == k * (2 * EQUITY_LIMIT) + 2 * EQUITY_LIMIT)
                by (nonlinear_arith);
            assert((k + 1) * SCALE == k * SCALE + SCALE) by (nonlinear_arith);
            assert((k + 1) * RATIO_LIMIT == k * RATIO_LIMIT + RATIO_LIMIT) by (nonlinear_arith);
            assert(k * (2 * EQUITY_LIMIT) <= MAX_ASSETS * (2 * EQUITY_LIMIT)) by (nonlinear_arith)
                requires
                    0 <= k <= MAX_ASSETS,
            ;
            assert(k * RATIO_LIMIT <= MAX_ASSETS * RATIO_LIMIT) by (nonlinear_arith)
                requires
                    0 <= k <= MAX_ASSETS,
            ;
            assert(k * SCALE <= MAX_ASSETS * SCALE) by (nonlinear_arith)
                requires
                    0 <= k <= MAX_ASSETS,
            ;
        }
        if a.is_profitable() {
            count = count + 1;
            gains = gains + a.total_return;
            win_rates = win_rates + a.win_rate;
            sharpes = sharpes + a.sharpe_ratio;
        }
        k = k + 1;
    }
    if count == 0 {
        return None;
    }
    let c = count as i128;
    Some(
        ProfitableSummary {
            total: n,
            profitable: count,
            profitable_percent: ratio_of(c, n as i128) * 100,
            avg_return: floor_div(gains, c),
            avg_win_rate: floor_div(win_rates, c),
            avg_sharpe: floor_div(sharpes, c),
        },
    )
}

/// The largest risk per position, in percent of the portfolio.
pub const MAX_RISK_PERCENT: i128 = 10_000_000_000;

/// The size of one position of a portfolio.
#[derive(Clone, Copy, Debug, PartialEq, Eq)]
pub struct PositionSize {
    pub shares: u64,
    /// The value of the shares, in ticks.
    pub value: i128,
    /// The money at risk, in ticks.
    pub risk: i128,
    /// The value as a share of the portfolio, in percent.
    pub percent_of_portfolio: i128,
    /// The risk as a share of the portfolio, in percent.
    pub risk_percent: i128,
}

/// The values of a plan allow a position to be sized: there is a price
/// and a risk per share, both positive and in range.
pub open spec fn sizable(cv: ComputedValues) -> bool {
    &&& 1 <= cv.current_price <= MAX_PRICE
    &&& 1 <= cv.risk_per_share <= 6 * MAX_PRICE
}

/// The number of whole shares whose risk is the given percentage of the
/// portfolio.
pub open spec fn shares_for(cv: ComputedValues, portfolio_value: int, risk_cap_percent: int) -> int {
    portfolio_value * risk_cap_percent / (100 * SCALE * cv.risk_per_share)
}

/// What the size of a position is.
pub open spec fn size_ok(
    p: PositionSize,
    cv: ComputedValues,
    portfolio_value: int,
    risk_cap_percent: int,
) -> bool {
    let shares = shares_for(cv, portfolio_value, risk_cap_percent);
    &&& p.shares == shares
    &&& p.value == shares * cv.current_price
    &&& p.risk == shares * cv.risk_per_share
    &&& p.percent_of_portfolio == ratio(shares * cv.current_price, portfolio_value) * 100
    &&& p.risk_percent == ratio(shares * cv.risk_per_share, portfolio_value) * 100
}

/// The size of the position of a plan in a portfolio that risks the given
/// percentage on each position; `None` where the values of the plan do not
/// allow a position to be sized.
pub fn size_position(cv: &ComputedValues, portfolio_value: i128, risk_cap_percent: i128) -> (p:
    Option<PositionSize>)
    requires
        1 <= portfolio_value <= MAX_PORTFOLIO,
        0 <= risk_cap_percent <= MAX_RISK_PERCENT,
    ensures
        p is Some <==> sizable(*cv),
        p matches Some(s) ==> size_ok(s, *cv, portfolio_value as int, risk_cap_percent as int)
            && 0 <= s.value <= MAX_PORTFOLIO * MAX_PRICE && 0 <= s.risk <= MAX_PORTFOLIO * (6
            * MAX_PRICE),
{
    if !(1 <= cv.current_price && cv.current_price <= MAX_PRICE && 1 <= cv.risk_per_share
        && cv.risk_per_share <= 6 * MAX_PRICE) {
        return None;
    }
    proof {
        lemma_product_bound(
            portfolio_value as int,
            risk_cap_percent as int,
            MAX_PORTFOLIO as int,
            100 * SCALE,
        );
        assert(portfolio_value * risk_cap_percent >= 0) by (nonlinear_arith)
            requires
                portfolio_value >= 0,
                risk_cap_percent >= 0,
        ;
    }
    let budget: i128 = portfolio_value * risk_cap_percent;
    let unit: i128 = 10_000_000_000 * cv.risk_per_share;
    proof {
        assert(unit == 100 * SCALE * cv.risk_per_share);
        lemma_div_monotone(0, budget as int, unit as int);
        vstd::arithmetic::div_mod::lemma_div_is_ordered_by_denominator(
            budget as int,
            10_000_000_000,
            unit as int,
        );
        lemma_div_monotone(budget as int, MAX_PORTFOLIO * 10_000_000_000, 10_000_000_000);
        vstd::arithmetic::div_mod::lemma_div_multiples_vanish(
            MAX_PORTFOLIO as int,
            10_000_000_000,
        );
    }
    let shares_wide = floor_div(budget, unit);
    let shares: u64 = shares_wide as u64;
    proof {
        lemma_product_bound(
            shares as int,
            cv.current_price as int,
            MAX_PORTFOLIO as int,
            MAX_PRICE as int,
        );
        lemma_product_bound(
            shares as int,
            cv.risk_per_share as int,
            MAX_PORTFOLIO as int,
            6 * MAX_PRICE,
        );
        assert(shares * cv.current_price >= 0) by (nonlinear_arith)
            requires
                shares >= 0,
                cv.current_price >= 0,
        ;
        assert(shares * cv.risk_per_share >= 0) by (nonlinear_arith)
            requires
                shares >= 0,
                cv.risk_per_share >= 0,
        ;
    }
    let value: i128 = (shares as i128) * cv.current_price;
    let risk: i128 = (shares as i128) * cv.risk_per_share;
    Some(
        PositionSize {
            shares,
            value,
            risk,
            percent_of_portfolio: ratio_of(value, portfolio_value) * 100,
            risk_percent: ratio_of(risk, portfolio_value) * 100,
        },
    )
}


/// Largest number of plans in a portfolio.
pub const MAX_PLANS: usize = 20;

/// The positions of a portfolio and their totals.
#[derive(Clone, Debug)]
pub struct PortfolioBook {
    /// One entry for each plan with all three signals: its position among
    /// the plans, and the size of its position.
    pub positions: Vec<(usize, PositionSize)>,
    pub total_position_value: i128,
    pub total_risk: i128,
    /// The total value as a share of the portfolio, in percent.
    pub portfolio_utilization: i128,
    /// The total risk as a share of the portfolio, in percent.
    pub total_risk_percent: i128,
}

/// The plan has all three signals.
pub open spec fn is_active(plan: TradePlan) -> bool {
    plan.computed_values.all_signals
}

/// Every plan with all three signals among the first `k` can be sized.
pub open spec fn all_sizable(plans: Seq<TradePlan>, k: int) -> bool {
    forall|i: int|
        0 <= i < k && is_active(#[trigger] plans[i]) ==> sizable(plans[i].computed_values)
}

/// Number of plans with all three signals among the first `k`.
pub open spec fn active_count(plans: Seq<TradePlan>, k: int) -> int
    decreases k,
{
    if k <= 0 {
        0
    } else {
        active_count(plans, k - 1) + if is_active(plans[k - 1]) {
            1int
        } else {
            0int
        }
    }
}

/// Sum of the values of the positions of the plans with all three signals
/// among the first `k`.
pub open spec fn value_sum(
    plans: Seq<TradePlan>,
    portfolio_value: int,
    risk_cap_percent: int,
    k: int,
) -> int
    decreases k,
{
    if k <= 0 {
        0
    } else {
        value_sum(plans, portfolio_value, risk_cap_percent, k - 1) + if is_active(plans[k - 1]) {
            shares_for(plans[k - 1].computed_values, portfolio_value, risk_cap_percent) * plans[k
                - 1].computed_values.current_price
        } else {
            0
        }
    }
}

/// Sum of the risks of the positions of the plans with all three signals
/// among the first `k`.
pub open spec fn risk_sum(
    plans: Seq<TradePlan>,
    portfolio_value: int,
    risk_cap_percent: int,
    k: int,
) -> int
    decreases k,
{
    if k <= 0 {
        0
    } else {
        risk_sum(plans, portfolio_value, risk_cap_percent, k - 1) + if is_active(plans[k - 1]) {
            shares_for(plans[k - 1].computed_values, portfolio_value, risk_cap_percent) * plans[k
                - 1].computed_values.risk_per_share
        } else {
            0
        }
    }
}

/// What the book of a portfolio is: one position, in order, for each plan
/// with all three signals, and the totals of their values and risks.
pub open spec fn book_ok(
    book: PortfolioBook,
    plans: Seq<TradePlan>,
    portfolio_value: int,
    risk_cap_percent: int,
) -> bool {
    let n = plans.len() as int;
    &&& book.positions.len() == active_count(plans, n)
    &&& forall|p: int|
        0 <= p < book.positions.len() ==> {
            let (at, size) = #[trigger] book.positions[p];
            &&& at < n
            &&& is_active(plans[at as int])
            &&& size_ok(size, plans[at as int].computed_values, portfolio_value, risk_cap_percent)
        }
    &&& forall|p: int, q: int|
        0 <= p < q < book.positions.len() ==> (#[trigger] book.positions[p]).0 < (
        #[trigger] book.positions[q]).0
    &&& book.total_position_value == value_sum(plans, portfolio_value, risk_cap_percent, n)
    &&& book.total_risk == risk_sum(plans, portfolio_value, risk_cap_percent, n)
    &&& book.portfolio_utilization == ratio(book.total_position_value as int, portfolio_value)
        * 100
    &&& book.total_risk_percent == ratio(book.total_risk as int, portfolio_value) * 100
}

/// The book of a portfolio that risks the given percentage on each
/// position; `None` where there are more than `MAX_PLANS` plans or a plan
/// with all three signals cannot be sized.
pub fn portfolio_book(plans: &Vec<TradePlan>, portfolio_value: i128, risk_cap_percent: i128) -> (book:
    Option<PortfolioBook>)
    requires
        1 <= portfolio_value <= MAX_PORTFOLIO,
        0 <= risk_cap_percent <= MAX_RISK_PERCENT,
    ensures
        book is Some <==> plans.len() <= MAX_PLANS && all_sizable(plans@, plans.len() as int),
        book matches Some(b) ==> book_ok(
            b,
            plans@,
            portfolio_value as int,
            risk_cap_percent as int,
        ),
{
    let n = plans.len();
    if n > MAX_PLANS {
        return None;
    }
    let mut positions: Vec<(usize, PositionSize)> = Vec::new();
    let mut total_value: i128 = 0;
    let mut total_risk: i128 = 0;
    let mut k: usize = 0;
    while k < n
        invariant
            n == plans.len(),
            n <= MAX_PLANS,
            1 <= portfolio_value <= MAX_PORTFOLIO,
            0 <= risk_cap_percent <= MAX_RISK_PERCENT,
            k <= n,
            all_sizable(plans@, k as int),
            positions.len() == active_count(plans@, k as int),
            positions.len() <= k,
            forall|p: int|
                0 <= p < positions.len() ==> {
                    let (at, size) = #[trigger] positions[p];
                    &&& at < k
                    &&& is_active(plans[at as int])
                    &&& size_ok(
                        size,
                        plans[at as int].computed_values,
                        portfolio_value as int,
                        risk_cap_percent as int,
                    )
                },
            forall|p: int, q: int|
                0 <= p < q < positions.len() ==> (#[trigger] positions[p]).0 < (
                #[trigger] positions[q]).0,
            total_value == value_sum(
                plans@,
                portfolio_value as int,
                risk_cap_percent as int,
                k as int,
            ),
            total_risk == risk_sum(
                plans@,
                portfolio_value as int,
                risk_cap_percent as int,
                k as int,
            ),
            0 <= total_value <= k * (MAX_PORTFOLIO * MAX_PRICE),
            0 <= total_risk <= k * (MAX_PORTFOLIO * (6 * MAX_PRICE)),
        decreases n - k,
    {
        if plans[k].computed_values.all_signals {
            match size_position(&plans[k].computed_values, portfolio_value, risk_cap_percent) {
                Some(size) => {
                    proof {
                        assert((k + 1) * (MAX_PORTFOLIO * MAX_PRICE) == k * (MAX_PORTFOLIO
                            * MAX_PRICE) + MAX_PORTFOLIO * MAX_PRICE) by (nonlinear_arith);
                        assert((k + 1) * (MAX_PORTFOLIO * (6 * MAX_PRICE)) == k * (MAX_PORTFOLIO
                            * (6 * MAX_PRICE)) + MAX_PORTFOLIO * (6 * MAX_PRICE))
                            by (nonlinear_arith);
                        assert(k * (MAX_PORTFOLIO * (6 * MAX_PRICE)) <= 19 * (MAX_PORTFOLIO * (6
                            * MAX_PRICE))) by (nonlinear_arith)
                            requires
                                0 <= k <= 19,
                        ;
                        assert(k * (MAX_PORTFOLIO * MAX_PRICE) <= 19 * (MAX_PORTFOLIO
                            * MAX_PRICE)) by (nonlinear_arith)
                            requires
                                0 <= k <= 19,
                        ;
                    }
                    total_value = total_value + size.value;
                    total_risk = total_risk + size.risk;
                    positions.push((k, size));
                },
                None => {
                    proof {
                        assert(is_active(plans[k as int]) && !sizable(
                            plans[k as int].computed_values,
                        ));
                    }
                    return None;
                },
            }
        } else {
            proof {
                assert((k + 1) * (MAX_PORTFOLIO * MAX_PRICE) >= k * (MAX_PORTFOLIO * MAX_PRICE))
                    by (nonlinear_arith);
                assert((k + 1) * (MAX_PORTFOLIO * (6 * MAX_PRICE)) >= k * (MAX_PORTFOLIO * (6
                    * MAX_PRICE))) by (nonlinear_arith);
            }
        }
        k = k + 1;
    }
    Some(
        PortfolioBook {
            positions,
            total_position_value: total_value,
            total_risk,
            portfolio_utilization: ratio_of(total_value, portfolio_value) * 100,
            total_risk_percent: ratio_of(total_risk, portfolio_value) * 100,
        },
    )
}

} // verus!

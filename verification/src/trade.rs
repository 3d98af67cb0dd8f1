//! The playbook builder: conviction, execution mode, a risk cap blended
//! from ten factors, and the concrete sizes, stops and targets of a plan.

use vstd::prelude::*;
use crate::analyzer::{SignalRow, StrategyAnalysis, history_ok};
use crate::fixed::{
    abs, ratio, ratio_of, floor_div, lemma_product_bound, lemma_div_monotone, MAX_DAYS, MAX_PRICE,
    SCALE,
};
use crate::indicators::distance;
use crate::signals::RS_SCALE;
use crate::stats::ProfitFactor;

verus! {

/// How a plan is entered.
#[derive(Clone, Copy, Debug, PartialEq, Eq)]
pub struct ExecutionMode {
    pub signal_at_close: bool,
    pub pullback_to_ma30: bool,
    /// How far above the long average a price counts as extended, as a ratio.
    pub extended_threshold: i128,
    pub limit_order_duration_hours: u32,
}

/// The conviction tier of a strategy, most confident first.
#[derive(Clone, Copy, Debug, PartialEq, Eq)]
pub enum ConvictionTier {
    VeryHigh,
    High,
    HighManaged,
    MediumHigh,
    Medium,
    Lower,
}

/// The tier that the Sharpe ratio, win rate and maximum drawdown of a
/// strategy reach: the first whose three conditions all hold.
pub open spec fn conviction_tier(sharpe: int, win_rate: int, max_drawdown: int) -> ConvictionTier {
    if sharpe >= 400_000_000 && win_rate >= 95_000_000 && max_drawdown <= 1_000_000 {
        ConvictionTier::VeryHigh
    } else if sharpe >= 200_000_000 && win_rate >= 90_000_000 && max_drawdown <= 5_000_000 {
        ConvictionTier::High
    } else if sharpe >= 150_000_000 && win_rate >= 85_000_000 && max_drawdown <= 10_000_000 {
        ConvictionTier::HighManaged
    } else if sharpe >= 100_000_000 && win_rate >= 80_000_000 {
        ConvictionTier::MediumHigh
    } else if sharpe >= 50_000_000 && win_rate >= 70_000_000 {
        ConvictionTier::Medium
    } else {
        ConvictionTier::Lower
    }
}

impl ConvictionTier {
    /// The conviction in a day with all three signals, as a ratio.
    pub open spec fn high_conviction(self) -> int {
        match self {
            ConvictionTier::VeryHigh => 95_000_000,
            ConvictionTier::High => 90_000_000,
            ConvictionTier::HighManaged => 85_000_000,
            ConvictionTier::MediumHigh => 80_000_000,
            ConvictionTier::Medium => 75_000_000,
            ConvictionTier::Lower => 70_000_000,
        }
    }

    /// The conviction in a day with a half weight, as a ratio.
    pub open spec fn medium_conviction(self) -> int {
        self.high_conviction() - 15_000_000
    }

    /// Why the tier was assigned.
    pub open spec fn rationale(self) -> Seq<char> {
        match self {
            ConvictionTier::VeryHigh => "Very High conviction due to exceptional Sharpe ratio and clean performance"@,
            ConvictionTier::High => "High conviction based on strong risk-adjusted returns"@,
            ConvictionTier::HighManaged => "High conviction with good risk management"@,
            ConvictionTier::MediumHigh => "Medium-High conviction with acceptable risk profile"@,
            ConvictionTier::Medium => "Medium conviction with moderate risk"@,
            ConvictionTier::Lower => "Lower conviction due to risk concerns"@,
        }
    }
}

/// The conviction in the two kinds of entry, with its rationale.
#[derive(Clone, Debug)]
pub struct Conviction {
    pub high_conviction: i128,
    pub medium_conviction: i128,
    pub rationale: String,
}

/// Computes the conviction tier.
pub fn conviction_tier_of(sharpe: i128, win_rate: i128, max_drawdown: i128) -> (t: ConvictionTier)
    ensures
        t == conviction_tier(sharpe as int, win_rate as int, max_drawdown as int),
{
    if sharpe >= 400_000_000 && win_rate >= 95_000_000 && max_drawdown <= 1_000_000 {
        ConvictionTier::VeryHigh
    } else if sharpe >= 200_000_000 && win_rate >= 90_000_000 && max_drawdown <= 5_000_000 {
        ConvictionTier::High
    } else if sharpe >= 150_000_000 && win_rate >= 85_000_000 && max_drawdown <= 10_000_000 {
        ConvictionTier::HighManaged
    } else if sharpe >= 100_000_000 && win_rate >= 80_000_000 {
        ConvictionTier::MediumHigh
    } else if sharpe >= 50_000_000 && win_rate >= 70_000_000 {
        ConvictionTier::Medium
    } else {
        ConvictionTier::Lower
    }
}

/// The conviction that the statistics of a strategy justify.
pub fn determine_conviction(stats: &StrategyAnalysis) -> (c: Conviction)
    ensures
        c.high_conviction == conviction_tier(
            stats.sharpe_ratio as int,
            stats.win_rate as int,
            stats.max_drawdown as int,
        ).high_conviction(),
        c.medium_conviction == conviction_tier(
            stats.sharpe_ratio as int,
            stats.win_rate as int,
            stats.max_drawdown as int,
        ).medium_conviction(),
        c.rationale@ == conviction_tier(
            stats.sharpe_ratio as int,
            stats.win_rate as int,
            stats.max_drawdown as int,
        ).rationale(),
{
    let tier = conviction_tier_of(stats.sharpe_ratio, stats.win_rate, stats.max_drawdown);
    match tier {
        ConvictionTier::VeryHigh => Conviction {
            high_conviction: 95_000_000,
            medium_conviction: 80_000_000,
            rationale: "Very High conviction due to exceptional Sharpe ratio and clean performance".to_owned(),
        },
        ConvictionTier::High => Conviction {
            high_conviction: 90_000_000,
            medium_conviction: 75_000_000,
            rationale: "High conviction based on strong risk-adjusted returns".to_owned(),
        },
        ConvictionTier::HighManaged => Conviction {
            high_conviction: 85_000_000,
            medium_conviction: 70_000_000,
            rationale: "High conviction with good risk management".to_owned(),
        },
        ConvictionTier::MediumHigh => Conviction {
            high_conviction: 80_000_000,
            medium_conviction: 65_000_000,
            rationale: "Medium-High conviction with acceptable risk profile".to_owned(),
        },
        ConvictionTier::Medium => Conviction {
            high_conviction: 75_000_000,
            medium_conviction: 60_000_000,
            rationale: "Medium conviction with moderate risk".to_owned(),
        },
        ConvictionTier::Lower => Conviction {
            high_conviction: 70_000_000,
            medium_conviction: 55_000_000,
            rationale: "Lower conviction due to risk concerns".to_owned(),
        },
    }
}

/// A profit factor is at least `bound`; an infinite one always is.
pub open spec fn factor_at_least(pf: ProfitFactor, bound: int) -> bool {
    match pf {
        ProfitFactor::Infinite => true,
        ProfitFactor::Finite(v) => v >= bound,
    }
}

/// Whether a profit factor is at least `bound`.
pub fn is_factor_at_least(pf: ProfitFactor, bound: i128) -> (b: bool)
    ensures
        b == factor_at_least(pf, bound as int),
{
    match pf {
        ProfitFactor::Infinite => true,
        ProfitFactor::Finite(v) => v >= bound,
    }
}

/// The confidence in a strategy, in fiftieths: the sum of five factors in
/// tenths, for Sharpe ratio, win rate, drawdown, sample size and profit
/// factor.
pub open spec fn confidence_fiftieths(
    sharpe: int,
    win_rate: int,
    max_drawdown: int,
    trading_days: int,
    pf: ProfitFactor,
) -> int {
    (if sharpe >= 200_000_000 {
        10int
    } else {
        5int
    }) + (if win_rate >= 80_000_000 {
        10int
    } else if win_rate >= 60_000_000 {
        8int
    } else {
        4int
    }) + (if max_drawdown <= 5_000_000 {
        10int
    } else if max_drawdown <= 15_000_000 {
        7int
    } else {
        3int
    }) + (if trading_days >= 15 {
        10int
    } else if trading_days >= 10 {
        8int
    } else {
        5int
    }) + (if factor_at_least(pf, 300_000_000) {
        10int
    } else if factor_at_least(pf, 200_000_000) {
        8int
    } else {
        5int
    })
}

/// The execution mode that the statistics of a strategy justify: a
/// pullback entry from a confidence of 0.7, an extension threshold of 15%,
/// 10% or 5% by drawdown and Sharpe ratio, and a limit-order duration of 72,
/// 48 or 24 hours by confidence.
pub open spec fn execution_mode_of(
    sharpe: int,
    win_rate: int,
    max_drawdown: int,
    trading_days: int,
    pf: ProfitFactor,
) -> ExecutionMode {
    let confidence = confidence_fiftieths(sharpe, win_rate, max_drawdown, trading_days, pf);
    ExecutionMode {
        signal_at_close: true,
        pullback_to_ma30: confidence >= 35,
        extended_threshold: if max_drawdown <= 5_000_000 && sharpe >= 150_000_000 {
            15_000_000
        } else if max_drawdown <= 10_000_000 && sharpe >= 100_000_000 {
            10_000_000
        } else {
            5_000_000
        },
        limit_order_duration_hours: if confidence >= 40 {
            72
        } else if confidence >= 30 {
            48
        } else {
            24
        },
    }
}

/// The execution mode that the statistics of a strategy justify.
pub fn determine_execution_mode(stats: &StrategyAnalysis) -> (mode: ExecutionMode)
    ensures
        mode == execution_mode_of(
            stats.sharpe_ratio as int,
            stats.win_rate as int,
            stats.max_drawdown as int,
            stats.trading_days as int,
            stats.profit_factor,
        ),
{
    let sharpe = stats.sharpe_ratio;
    let win_rate = stats.win_rate;
    let max_drawdown = stats.max_drawdown;
    let mut confidence: u32 = 0;
    confidence = confidence + if sharpe >= 200_000_000 {
        10
    } else {
        5
    };
    confidence = confidence + if win_rate >= 80_000_000 {
        10
    } else if win_rate >= 60_000_000 {
        8
    } else {
        4
    };
    confidence = confidence + if max_drawdown <= 5_000_000 {
        10
    } else if max_drawdown <= 15_000_000 {
        7
    } else {
        3
    };
    confidence = confidence + if stats.trading_days >= 15 {
        10
    } else if stats.trading_days >= 10 {
        8
    } else {
        5
    };
    confidence = confidence + if is_factor_at_least(stats.profit_factor, 300_000_000) {
        10
    } else if is_factor_at_least(stats.profit_factor, 200_000_000) {
        8
    } else {
        5
    };
    ExecutionMode {
        signal_at_close: true,
        pullback_to_ma30: confidence >= 35,
        extended_threshold: if max_drawdown <= 5_000_000 && sharpe >= 150_000_000 {
            15_000_000
        } else if max_drawdown <= 10_000_000 && sharpe >= 100_000_000 {
            10_000_000
        } else {
            5_000_000
        },
        limit_order_duration_hours: if confidence >= 40 {
            72
        } else if confidence >= 30 {
            48
        } else {
            24
        },
    }
}

/// Largest relative strength: the largest price over one tick.
pub const RS_LIMIT: i128 = 10_000_000_000_000_000_000_000_000_000_000_000;

/// The smallest risk cap, in thousandths of the portfolio: 0.2%.
pub const MIN_RISK_CAP: u64 = 2;

/// The largest risk cap, in thousandths of the portfolio: 2.5%.
pub const MAX_RISK_CAP: u64 = 25;

/// What the risk cap is derived from. Ratios are in units of `1 / SCALE`,
/// relative strengths in units of `1 / RS_SCALE`, prices in ticks.
#[derive(Clone, Copy, Debug)]
pub struct RiskInputs {
    pub sharpe_ratio: i128,
    pub max_drawdown: i128,
    pub win_rate: i128,
    /// Annualised volatility; `None` where it is not a number.
    pub volatility: Option<i128>,
    /// In fine units, `FINE` standing for `1`.
    pub total_return: i128,
    pub trading_days: usize,
    pub profit_factor: ProfitFactor,
    pub rs_ma7: i128,
    pub rs_ma30: i128,
    pub current_price: i128,
    pub ma30: i128,
    pub atr_14: i128,
}

/// The Sharpe factor, in tenths.
pub open spec fn sharpe_factor(sharpe: int) -> int {
    if sharpe >= 300_000_000 {
        15
    } else if sharpe >= 200_000_000 {
        13
    } else if sharpe >= 150_000_000 {
        11
    } else if sharpe >= 100_000_000 {
        10
    } else if sharpe >= 50_000_000 {
        8
    } else {
        6
    }
}

/// The drawdown factor, in tenths.
pub open spec fn drawdown_factor(max_drawdown: int) -> int {
    if max_drawdown <= 2_000_000 {
        12
    } else if max_drawdown <= 5_000_000 {
        10
    } else if max_drawdown <= 10_000_000 {
        8
    } else if max_drawdown <= 20_000_000 {
        6
    } else {
        4
    }
}

/// The win-rate factor, in tenths.
pub open spec fn win_rate_factor(win_rate: int) -> int {
    if win_rate >= 80_000_000 {
        12
    } else if win_rate >= 70_000_000 {
        11
    } else if win_rate >= 60_000_000 {
        10
    } else if win_rate >= 50_000_000 {
        9
    } else {
        7
    }
}

/// The volatility factor, in tenths; a volatility that is not a number
/// gets the lowest.
pub open spec fn volatility_factor(volatility: Option<i128>) -> int {
    match volatility {
        Some(v) => if v <= 2_000_000_000 {
            11
        } else if v <= 4_000_000_000 {
            10
        } else if v <= 6_000_000_000 {
            9
        } else if v <= 8_000_000_000 {
            8
        } else {
            6
        },
        None => 6,
    }
}

/// The return-magnitude factor, in tenths, of a total return in fine
/// units.
pub open spec fn return_factor(total_return: int) -> int {
    if total_return <= 100_000_000_000_000_000 {
        11
    } else if total_return <= 500_000_000_000_000_000 {
        10
    } else if total_return <= 2_000_000_000_000_000_000 {
        9
    } else if total_return <= 10_000_000_000_000_000_000 {
        8
    } else {
        6
    }
}

/// The sample-size factor, in tenths.
pub open spec fn sample_factor(trading_days: int) -> int {
    if trading_days >= 20 {
        11
    } else if trading_days >= 15 {
        10
    } else if trading_days >= 10 {
        9
    } else if trading_days >= 5 {
        8
    } else {
        7
    }
}

/// The profit-factor factor, in tenths.
pub open spec fn profit_factor_factor(pf: ProfitFactor) -> int {
    if factor_at_least(pf, 500_000_000) {
        12
    } else if factor_at_least(pf, 300_000_000) {
        11
    } else if factor_at_least(pf, 200_000_000) {
        10
    } else if factor_at_least(pf, 150_000_000) {
        9
    } else if factor_at_least(pf, 100_000_000) {
        8
    } else {
        6
    }
}

/// The relative-strength-spread factor, in tenths.
pub open spec fn spread_factor(rs_ma7: int, rs_ma30: int) -> int {
    let spread = abs(rs_ma7 - rs_ma30);
    if spread >= RS_SCALE / 10 {
        11
    } else if spread >= RS_SCALE / 20 {
        10
    } else if spread >= RS_SCALE / 50 {
        9
    } else {
        8
    }
}

/// The price-extension factor, in tenths, from the price over the long
/// average; without a positive long average it is the lowest.
pub open spec fn extension_factor(price: int, ma30: int) -> int {
    if ma30 <= 0 {
        6
    } else if price * 100 <= ma30 * 105 {
        11
    } else if price * 100 <= ma30 * 110 {
        10
    } else if price * 100 <= ma30 * 120 {
        9
    } else if price * 100 <= ma30 * 130 {
        8
    } else {
        6
    }
}

/// The range-risk factor, in tenths, from the average true range over the
/// price; without a positive price it is the lowest.
pub open spec fn range_factor(atr: int, price: int) -> int {
    if price <= 0 {
        6
    } else if atr * 100 <= price * 2 {
        11
    } else if atr * 100 <= price * 5 {
        10
    } else if atr * 100 <= price * 10 {
        9
    } else if atr * 100 <= price * 15 {
        8
    } else {
        6
    }
}

/// The product of the ten factors, each in tenths.
pub open spec fn factor_product(r: RiskInputs) -> int {
    sharpe_factor(r.sharpe_ratio as int) * drawdown_factor(r.max_drawdown as int)
        * win_rate_factor(r.win_rate as int) * volatility_factor(r.volatility) * return_factor(
        r.total_return as int,
    ) * sample_factor(r.trading_days as int) * profit_factor_factor(r.profit_factor)
        * spread_factor(r.rs_ma7 as int, r.rs_ma30 as int) * extension_factor(
        r.current_price as int,
        r.ma30 as int,
    ) * range_factor(r.atr_14 as int, r.current_price as int)
}

/// The tenth power.
pub open spec fn tenth_power(x: int) -> int {
    let x2 = x * x;
    let x4 = x2 * x2;
    let x8 = x4 * x4;
    x8 * x2
}

/// The risk cap in thousandths for a product of ten factors in tenths: one
/// percent times the geometric mean of the factors, rounded to the nearest
/// thousandth and kept between `MIN_RISK_CAP` and `MAX_RISK_CAP`. It is
/// found as the first `r` from `from` on whose upper rounding boundary
/// `r + 1/2` exceeds the tenth root of the product.
pub open spec fn cap_from(product: int, from: int) -> int
    decreases MAX_RISK_CAP - from,
{
    if from >= MAX_RISK_CAP {
        MAX_RISK_CAP as int
    } else if 1024 * product < tenth_power(2 * from + 1) {
        from
    } else {
        cap_from(product, from + 1)
    }
}

/// The risk cap of a strategy, in thousandths of the portfolio.
pub open spec fn risk_cap_thousandths(r: RiskInputs) -> int {
    cap_from(factor_product(r), MIN_RISK_CAP as int)
}

/// The search for the risk cap ends between where it starts and 2.5%.
pub proof fn lemma_cap_bounds(product: int, from: int)
    requires
        MIN_RISK_CAP <= from <= MAX_RISK_CAP,
    ensures
        from <= cap_from(product, from) <= MAX_RISK_CAP,
    decreases MAX_RISK_CAP - from,
{
    if from < MAX_RISK_CAP && !(1024 * product < tenth_power(2 * from + 1)) {
        lemma_cap_bounds(product, from + 1);
    }
}

/// Whatever the metrics, the risk cap derived from them lies between 0.2%
/// and 2.5% of the portfolio.
pub proof fn lemma_risk_cap_bounds(r: RiskInputs)
    ensures
        MIN_RISK_CAP <= risk_cap_thousandths(r) <= MAX_RISK_CAP,
        2 * (SCALE / 1000) <= risk_cap_thousandths(r) * (SCALE / 1000) <= 25 * (SCALE / 1000),
{
    lemma_cap_bounds(factor_product(r), MIN_RISK_CAP as int);
}

/// A risk cap strictly between the bounds is the tenth root of the
/// product rounded to the nearest integer: the product lies between the
/// tenth powers of the cap less a half and the cap plus a half.
pub proof fn lemma_cap_is_rounded_root(product: int, from: int)
    requires
        MIN_RISK_CAP <= from <= MAX_RISK_CAP,
        from > MIN_RISK_CAP ==> 1024 * product >= tenth_power(2 * from - 1),
    ensures
        ({
            let cap = cap_from(product, from);
            &&& cap < MAX_RISK_CAP ==> 1024 * product < tenth_power(2 * cap + 1)
            &&& cap > MIN_RISK_CAP ==> 1024 * product >= tenth_power(2 * cap - 1)
        }),
    decreases MAX_RISK_CAP - from,
{
    if from < MAX_RISK_CAP && !(1024 * product < tenth_power(2 * from + 1)) {
        lemma_cap_is_rounded_root(product, from + 1);
    }
}

/// Computes the tenth power of a small number.
fn tenth_power_of(x: u64) -> (p: u64)
    requires
        x <= 51,
    ensures
        p == tenth_power(x as int),
{
    assert(x * x <= 2601) by (nonlinear_arith)
        requires
            x <= 51,
    ;
    let x2 = x * x;
    assert(x2 * x2 <= 6765201) by (nonlinear_arith)
        requires
            x2 <= 2601,
    ;
    let x4 = x2 * x2;
    assert(x4 * x4 <= 45767944570401) by (nonlinear_arith)
        requires
            x4 <= 6765201,
    ;
    let x8 = x4 * x4;
    assert(x8 * x2 <= 45767944570401 * 2601) by (nonlinear_arith)
        requires
            x8 <= 45767944570401,
            x2 <= 2601,
    ;
    x8 * x2
}

/// Computes the Sharpe factor.
fn sharpe_factor_of(sharpe: i128) -> (f: u64)
    ensures
        f == sharpe_factor(sharpe as int),
        4 <= f <= 15,
{
    if sharpe >= 300_000_000 {
        15
    } else if sharpe >= 200_000_000 {
        13
    } else if sharpe >= 150_000_000 {
        11
    } else if sharpe >= 100_000_000 {
        10
    } else if sharpe >= 50_000_000 {
        8
    } else {
        6
    }
}

/// Computes the drawdown factor.
fn drawdown_factor_of(max_drawdown: i128) -> (f: u64)
    ensures
        f == drawdown_factor(max_drawdown as int),
        4 <= f <= 15,
{
    if max_drawdown <= 2_000_000 {
        12
    } else if max_drawdown <= 5_000_000 {
        10
    } else if max_drawdown <= 10_000_000 {
        8
    } else if max_drawdown <= 20_000_000 {
        6
    } else {
        4
    }
}

/// Computes the win-rate factor.
fn win_rate_factor_of(win_rate: i128) -> (f: u64)
    ensures
        f == win_rate_factor(win_rate as int),
        4 <= f <= 15,
{
    if win_rate >= 80_000_000 {
        12
    } else if win_rate >= 70_000_000 {
        11
    } else if win_rate >= 60_000_000 {
        10
    } else if win_rate >= 50_000_000 {
        9
    } else {
        7
    }
}

/// Computes the volatility factor.
fn volatility_factor_of(volatility: Option<i128>) -> (f: u64)
    ensures
        f == volatility_factor(volatility),
        4 <= f <= 15,
{
    match volatility {
        Some(v) => if v <= 2_000_000_000 {
            11
        } else if v <= 4_000_000_000 {
            10
        } else if v <= 6_000_000_000 {
            9
        } else if v <= 8_000_000_000 {
            8
        } else {
            6
        },
        None => 6,
    }
}

/// Computes the return-magnitude factor.
fn return_factor_of(total_return: i128) -> (f: u64)
    ensures
        f == return_factor(total_return as int),
        4 <= f <= 15,
{
    if total_return <= 100_000_000_000_000_000 {
        11
    } else if total_return <= 500_000_000_000_000_000 {
        10
    } else if total_return <= 2_000_000_000_000_000_000 {
        9
    } else if total_return <= 10_000_000_000_000_000_000 {
        8
    } else {
        6
    }
}

/// Computes the sample-size factor.
fn sample_factor_of(trading_days: usize) -> (f: u64)
    ensures
        f == sample_factor(trading_days as int),
        4 <= f <= 15,
{
    if trading_days >= 20 {
        11
    } else if trading_days >= 15 {
        10
    } else if trading_days >= 10 {
        9
    } else if trading_days >= 5 {
        8
    } else {
        7
    }
}

/// Computes the profit-factor factor.
fn profit_factor_factor_of(pf: ProfitFactor) -> (f: u64)
    ensures
        f == profit_factor_factor(pf),
        4 <= f <= 15,
{
    if is_factor_at_least(pf, 500_000_000) {
        12
    } else if is_factor_at_least(pf, 300_000_000) {
        11
    } else if is_factor_at_least(pf, 200_000_000) {
        10
    } else if is_factor_at_least(pf, 150_000_000) {
        9
    } else if is_factor_at_least(pf, 100_000_000) {
        8
    } else {
        6
    }
}

/// Whether two numbers are at least `t` apart.
fn at_least_apart(a: i128, b: i128, t: i128) -> (r: bool)
    requires
        t > 0,
    ensures
        r == (abs(a - b) >= t),
{
    let (hi, lo) = if a >= b {
        (a, b)
    } else {
        (b, a)
    };
    lo <= i128::MAX - t && hi >= lo + t
}

/// Computes the relative-strength-spread factor.
fn spread_factor_of(rs_ma7: i128, rs_ma30: i128) -> (f: u64)
    ensures
        f == spread_factor(rs_ma7 as int, rs_ma30 as int),
        4 <= f <= 15,
{
    if at_least_apart(rs_ma7, rs_ma30, RS_SCALE / 10) {
        11
    } else if at_least_apart(rs_ma7, rs_ma30, RS_SCALE / 20) {
        10
    } else if at_least_apart(rs_ma7, rs_ma30, RS_SCALE / 50) {
        9
    } else {
        8
    }
}

/// Computes the price-extension factor.
fn extension_factor_of(price: i128, ma30: i128) -> (f: u64)
    ensures
        f == extension_factor(price as int, ma30 as int),
        4 <= f <= 15,
{
    if ma30 <= 0 {
        6
    } else if price <= ma30 {
        11
    } else {
        // how far the price is above the average
        let over: i128 = price - ma30;
        let tenth = floor_div(ma30, 10);
        let rest: i128 = ma30 - 10 * tenth;
        if over <= floor_div(ma30, 20) {
            11
        } else if over <= tenth {
            10
        } else if over <= floor_div(ma30, 5) {
            9
        } else if over <= 3 * tenth + floor_div(3 * rest, 10) {
            8
        } else {
            6
        }
    }
}

/// Computes the range-risk factor.
fn range_factor_of(atr: i128, price: i128) -> (f: u64)
    ensures
        f == range_factor(atr as int, price as int),
        4 <= f <= 15,
{
    if price <= 0 {
        6
    } else {
        let twentieth = floor_div(price, 20);
        let rest: i128 = price - 20 * twentieth;
        if atr <= floor_div(price, 50) {
            11
        } else if atr <= twentieth {
            10
        } else if atr <= floor_div(price, 10) {
            9
        } else if atr <= 3 * twentieth + floor_div(3 * rest, 20) {
            8
        } else {
            6
        }
    }
}

/// Multiplies a running product of at most `bound` by a factor.
fn times_factor(product: u64, factor: u64, Ghost(bound): Ghost<int>) -> (p: u64)
    requires
        product <= bound,
        bound * 15 <= 600_000_000_000,
        factor <= 15,
        bound >= 0,
    ensures
        p == product * factor,
        p <= bound * 15,
{
    assert(product * factor <= bound * 15) by (nonlinear_arith)
        requires
            0 <= product <= bound,
            0 <= factor <= 15,
    ;
    product * factor
}

/// The risk cap as a ratio of the portfolio: one percent times the
/// geometric mean of ten factors, rounded to a thousandth and kept between
/// 0.2% and 2.5%.
pub fn blend_risk_cap(inputs: &RiskInputs) -> (cap: i128)
    ensures
        cap == risk_cap_thousandths(*inputs) * (SCALE / 1000),
        2 * (SCALE / 1000) <= cap <= 25 * (SCALE / 1000),
{
    let p = sharpe_factor_of(inputs.sharpe_ratio);
    let p = times_factor(p, drawdown_factor_of(inputs.max_drawdown), Ghost(15));
    let p = times_factor(p, win_rate_factor_of(inputs.win_rate), Ghost(225));
    let p = times_factor(p, volatility_factor_of(inputs.volatility), Ghost(3375));
    let p = times_factor(p, return_factor_of(inputs.total_return), Ghost(50625));
    let p = times_factor(p, sample_factor_of(inputs.trading_days), Ghost(759375));
    let p = times_factor(p, profit_factor_factor_of(inputs.profit_factor), Ghost(11390625));
    let p = times_factor(p, spread_factor_of(inputs.rs_ma7, inputs.rs_ma30), Ghost(170859375));
    let p = times_factor(
        p,
        extension_factor_of(inputs.current_price, inputs.ma30),
        Ghost(2562890625),
    );
    let p = times_factor(
        p,
        range_factor_of(inputs.atr_14, inputs.current_price),
        Ghost(38443359375),
    );
    assert(p == factor_product(*inputs));
    let mut r: u64 = MIN_RISK_CAP;
    while r < MAX_RISK_CAP
        invariant
            MIN_RISK_CAP <= r <= MAX_RISK_CAP,
            p <= 576_650_390_625,
            p == factor_product(*inputs),
            cap_from(p as int, r as int) == cap_from(p as int, MIN_RISK_CAP as int),
        decreases MAX_RISK_CAP - r,
    {
        let boundary = tenth_power_of(2 * r + 1);
        if 1024 * p < boundary {
            assert(cap_from(p as int, r as int) == r);
            return (r as i128) * (SCALE / 1000);
        }
        r = r + 1;
    }
    proof {
        lemma_cap_bounds(p as int, MIN_RISK_CAP as int);
    }
    (r as i128) * (SCALE / 1000)
}

/// Largest portfolio value, in ticks.
pub const MAX_PORTFOLIO: i128 = 1_000_000_000_000_000_000;

/// The stop lies this many average true ranges below the price.
pub const STOP_DISTANCE: i128 = 3;

/// The window of the average true range of a playbook, in days.
pub const ATR_PERIOD: usize = 14;

/// The concrete values of a plan. Prices and money are in ticks; ratios
/// in units of `1 / SCALE`; percentages are ratios times one hundred;
/// fractional share counts are in units of `1 / SCALE` of a share.
#[derive(Clone, Copy, Debug, PartialEq, Eq)]
pub struct ComputedValues {
    pub current_price: i128,
    pub ma30: i128,
    pub ma7: i128,
    pub rs_ma7: i128,
    pub rs_ma30: i128,
    pub atr_14: i128,
    /// Annualised volatility; `None` where it is not a number.
    pub volatility: Option<i128>,
    pub trend_signal: bool,
    pub momentum_signal: bool,
    pub rs_signal: bool,
    pub all_signals: bool,
    pub partial_signals: bool,
    pub stop_price: i128,
    pub risk_per_share: i128,
    /// `None` where no risk per share bounds the position.
    pub max_shares_by_risk: Option<i128>,
    pub max_shares_by_position: i128,
    pub recommended_shares: u64,
    pub position_value: i128,
    pub position_percent: i128,
    pub profit_target: i128,
    pub profit_target_percent: i128,
    pub scale_out_shares: u64,
    pub remaining_shares: u64,
    pub scale_out_value: i128,
    pub initial_stop: i128,
    pub stop_loss_percent: i128,
    pub trailing_stop: i128,
    pub stop_distance_atr: i128,
    pub portfolio_risk: i128,
    /// `None` where there is no risk per share to relate the reward to.
    pub risk_reward_ratio: Option<i128>,
    pub max_loss: i128,
    pub max_gain: i128,
    pub is_extended: bool,
    pub ma30_pullback_price: i128,
    pub extended_percent: i128,
    pub signal_strength: i128,
}

/// The values of a plan for a history without a single day: all zero.
pub open spec fn empty_values() -> ComputedValues {
    ComputedValues {
        current_price: 0,
        ma30: 0,
        ma7: 0,
        rs_ma7: 0,
        rs_ma30: 0,
        atr_14: 0,
        volatility: Some(0i128),
        trend_signal: false,
        momentum_signal: false,
        rs_signal: false,
        all_signals: false,
        partial_signals: false,
        stop_price: 0,
        risk_per_share: 0,
        max_shares_by_risk: Some(0i128),
        max_shares_by_position: 0,
        recommended_shares: 0,
        position_value: 0,
        position_percent: 0,
        profit_target: 0,
        profit_target_percent: 0,
        scale_out_shares: 0,
        remaining_shares: 0,
        scale_out_value: 0,
        initial_stop: 0,
        stop_loss_percent: 0,
        trailing_stop: 0,
        stop_distance_atr: 0,
        portfolio_risk: 0,
        risk_reward_ratio: Some(0i128),
        max_loss: 0,
        max_gain: 0,
        is_extended: false,
        ma30_pullback_price: 0,
        extended_percent: 0,
        signal_strength: 0,
    }
}

impl Default for ComputedValues {
    fn default() -> (cv: ComputedValues)
        ensures
            cv == empty_values(),
    {
        ComputedValues {
            current_price: 0,
            ma30: 0,
            ma7: 0,
            rs_ma7: 0,
            rs_ma30: 0,
            atr_14: 0,
            volatility: Some(0),
            trend_signal: false,
            momentum_signal: false,
            rs_signal: false,
            all_signals: false,
            partial_signals: false,
            stop_price: 0,
            risk_per_share: 0,
            max_shares_by_risk: Some(0),
            max_shares_by_position: 0,
            recommended_shares: 0,
            position_value: 0,
            position_percent: 0,
            profit_target: 0,
            profit_target_percent: 0,
            scale_out_shares: 0,
            remaining_shares: 0,
            scale_out_value: 0,
            initial_stop: 0,
            stop_loss_percent: 0,
            trailing_stop: 0,
            stop_distance_atr: 0,
            portfolio_risk: 0,
            risk_reward_ratio: Some(0),
            max_loss: 0,
            max_gain: 0,
            is_extended: false,
            ma30_pullback_price: 0,
            extended_percent: 0,
            signal_strength: 0,
        }
    }
}

/// The distances between consecutive closes of a history.
pub open spec fn close_distances(signals: Seq<SignalRow>) -> Seq<i128> {
    Seq::new(
        if signals.len() > 0 {
            (signals.len() - 1) as nat
        } else {
            0
        },
        |j: int| abs(signals[j + 1].close - signals[j].close) as i128,
    )
}

/// The average true range of a history of closes: the mean, rounded down,
/// of the last `period` distances between consecutive closes, or of all of
/// them where there are fewer; zero for fewer than two days.
pub open spec fn close_atr(signals: Seq<SignalRow>, period: int) -> int {
    let d = close_distances(signals);
    if signals.len() < 2 {
        0
    } else if d.len() < period {
        crate::indicators::window_sum(d, 0, d.len() as int) / (d.len() as int)
    } else {
        crate::indicators::window_sum(d, d.len() - period, d.len() as int) / period
    }
}

/// Computes the average true range of a history of closes.
pub fn calculate_atr(signals: &Vec<SignalRow>, period: usize) -> (atr: i128)
    requires
        history_ok(signals@),
        period >= 1,
    ensures
        atr == close_atr(signals@, period as int),
        0 <= atr <= MAX_PRICE,
{
    let n = signals.len();
    if n < 2 {
        return 0;
    }
    let count: usize = n - 1;
    let first: usize = if count < period {
        0
    } else {
        count - period
    };
    let ghost d = close_distances(signals@);
    let mut sum: i128 = 0;
    let mut j: usize = first;
    while j < count
        invariant
            n == signals.len(),
            history_ok(signals@),
            count == n - 1,
            first <= j <= count,
            d == close_distances(signals@),
            sum == crate::indicators::window_sum(d, first as int, j as int),
            0 <= sum <= (j - first) * MAX_PRICE,
        decreases count - j,
    {
        let step = distance(signals[j + 1].close, signals[j].close);
        proof {
            assert(d[j as int] == step);
            assert((j + 1 - first) * MAX_PRICE == (j - first) * MAX_PRICE + MAX_PRICE)
                by (nonlinear_arith);
            assert((j - first) * MAX_PRICE <= MAX_DAYS * MAX_PRICE) by (nonlinear_arith)
                requires
                    0 <= j - first <= MAX_DAYS,
            ;
            assert(step <= MAX_PRICE);
        }
        sum = sum + step;
        j = j + 1;
    }
    let terms: i128 = (count - first) as i128;
    proof {
        lemma_div_monotone(0, sum as int, terms as int);
        lemma_div_monotone(sum as int, terms * MAX_PRICE, terms as int);
        vstd::arithmetic::div_mod::lemma_div_multiples_vanish(MAX_PRICE as int, terms as int);
    }
    floor_div(sum, terms)
}

/// The averages of a row, where present, are prices, and its
/// relative-strength averages are within range.
pub open spec fn averages_ok(row: SignalRow) -> bool {
    &&& row.valid()
    &&& row.ma_long matches Some(v) ==> 1 <= v <= MAX_PRICE
    &&& row.ma_short matches Some(v) ==> 1 <= v <= MAX_PRICE
    &&& row.rs_ma_short matches Some(v) ==> 0 <= v <= RS_LIMIT
    &&& row.rs_ma_long matches Some(v) ==> 0 <= v <= RS_LIMIT
}

/// Whether the averages of a row are within range.
pub fn has_valid_averages(row: &SignalRow) -> (b: bool)
    ensures
        b == averages_ok(*row),
{
    row.is_valid() && (match row.ma_long {
        Some(v) => 1 <= v && v <= MAX_PRICE,
        None => true,
    }) && (match row.ma_short {
        Some(v) => 1 <= v && v <= MAX_PRICE,
        None => true,
    }) && (match row.rs_ma_short {
        Some(v) => 0 <= v && v <= RS_LIMIT,
        None => true,
    }) && (match row.rs_ma_long {
        Some(v) => 0 <= v && v <= RS_LIMIT,
        None => true,
    })
}

/// The value of an optional number, or `default` where it is absent.
pub open spec fn or_default(o: Option<i128>, default: int) -> int {
    match o {
        Some(v) => v as int,
        None => default,
    }
}

/// The number of shares, in units of `1 / SCALE` of a share, that the
/// share of the portfolio open to one position buys. That share is the risk
/// cap over the fraction of the price at risk, the fraction counted as at
/// least one percent and the share as at most the whole portfolio.
pub open spec fn shares_by_position(
    portfolio_value: int,
    risk_per_share: int,
    price: int,
    risk_cap: int,
) -> int {
    if risk_per_share * 100 >= price {
        if risk_cap * price <= SCALE * risk_per_share {
            portfolio_value * risk_cap / risk_per_share
        } else {
            portfolio_value * SCALE / price
        }
    } else if risk_cap * 100 <= SCALE {
        portfolio_value * (risk_cap * 100) / price
    } else {
        portfolio_value * SCALE / price
    }
}

/// The smaller of the two bounds on the position, in units of
/// `1 / SCALE` of a share.
pub open spec fn share_bound(by_risk: Option<int>, by_position: int) -> int {
    match by_risk {
        Some(r) if r < by_position => r,
        _ => by_position,
    }
}

/// What the values of a plan are, field by field, for the latest row of a
/// history, its average true range and volatility, an execution mode, a
/// risk cap, a portfolio value, and the number of signals that a half
/// weight needs. The signals are partial where relative strength is among
/// at least that many bullish signals, as for the half weight of a day.
pub open spec fn values_ok(
    cv: ComputedValues,
    latest: SignalRow,
    atr: int,
    volatility: Option<i128>,
    mode: ExecutionMode,
    risk_cap: int,
    portfolio_value: int,
    min_signals: int,
) -> bool {
    let price = latest.close as int;
    let ma30 = or_default(latest.ma_long, price);
    let ma7 = or_default(latest.ma_short, price);
    let rs_ma7 = or_default(latest.rs_ma_short, RS_SCALE as int);
    let rs_ma30 = or_default(latest.rs_ma_long, RS_SCALE as int);
    let risk = STOP_DISTANCE * atr;
    let by_risk = if risk == 0 {
        None
    } else {
        Some(portfolio_value * risk_cap / risk)
    };
    let by_position = shares_by_position(portfolio_value, risk, price, risk_cap);
    let shares = share_bound(by_risk, by_position) / (SCALE as int);
    let target = price + 2 * risk;
    &&& cv.current_price == price
    &&& cv.ma30 == ma30
    &&& cv.ma7 == ma7
    &&& cv.rs_ma7 == rs_ma7
    &&& cv.rs_ma30 == rs_ma30
    &&& cv.atr_14 == atr
    &&& cv.volatility == volatility
    &&& cv.trend_signal == (price > ma30)
    &&& cv.momentum_signal == (ma7 > ma30)
    &&& cv.rs_signal == (rs_ma7 > rs_ma30)
    &&& cv.all_signals == (cv.trend_signal && cv.momentum_signal && cv.rs_signal)
    &&& cv.partial_signals == (cv.rs_signal && crate::signals::score_of(
        cv.trend_signal,
        cv.momentum_signal,
        cv.rs_signal,
    ) >= min_signals)
    &&& cv.stop_price == price - risk
    &&& cv.risk_per_share == risk
    &&& crate::indicators::opt_int(cv.max_shares_by_risk) == by_risk
    &&& cv.max_shares_by_position == by_position
    &&& cv.recommended_shares == shares
    &&& cv.position_value == shares * price
    &&& cv.position_percent == ratio(shares * price, portfolio_value)
    &&& cv.profit_target == target
    &&& cv.profit_target_percent == ratio(2 * risk, price) * 100
    &&& cv.scale_out_shares == shares / 2
    &&& cv.remaining_shares == shares - shares / 2
    &&& cv.scale_out_value == (shares / 2) * target
    &&& cv.initial_stop == price - risk
    &&& cv.stop_loss_percent == ratio(risk, price) * 100
    &&& cv.trailing_stop == price - risk
    &&& cv.stop_distance_atr == STOP_DISTANCE * SCALE
    &&& cv.portfolio_risk == ratio(shares * risk, portfolio_value)
    &&& crate::indicators::opt_int(cv.risk_reward_ratio) == if risk == 0 {
        None
    } else {
        Some(ratio(2 * risk, risk))
    }
    &&& cv.max_loss == shares * risk
    &&& cv.max_gain == shares * (2 * risk)
    &&& cv.is_extended == (price * SCALE > ma30 * (SCALE + mode.extended_threshold))
    &&& cv.ma30_pullback_price == ma30
    &&& cv.extended_percent == if cv.is_extended {
        ratio(price - ma30, ma30) * 100
    } else {
        0
    }
    &&& cv.signal_strength == if cv.all_signals {
        SCALE as int
    } else if cv.partial_signals {
        SCALE / 2
    } else {
        0
    }
}

/// The number of shares, in units of `1 / SCALE` of a share, whose risk
/// is the risk cap of the portfolio; `None` where a share carries no risk.
pub fn shares_by_risk_of(portfolio_value: i128, risk: i128, risk_cap: i128) -> (shares: Option<
    i128,
>)
    requires
        1 <= portfolio_value <= MAX_PORTFOLIO,
        0 <= risk <= 3 * MAX_PRICE,
        0 <= risk_cap <= SCALE,
    ensures
        crate::indicators::opt_int(shares) == if risk == 0 {
            None
        } else {
            Some(portfolio_value * risk_cap / (risk as int))
        },
        shares matches Some(v) ==> 0 <= v <= MAX_PORTFOLIO * SCALE,
{
    if risk == 0 {
        None
    } else {
        proof {
            lemma_product_bound(
                portfolio_value as int,
                risk_cap as int,
                MAX_PORTFOLIO as int,
                SCALE as int,
            );
            assert(portfolio_value * risk_cap >= 0) by (nonlinear_arith)
                requires
                    portfolio_value >= 0,
                    risk_cap >= 0,
            ;
            lemma_div_monotone(0, portfolio_value * risk_cap, risk as int);
            vstd::arithmetic::div_mod::lemma_div_is_ordered_by_denominator(
                portfolio_value * risk_cap,
                1,
                risk as int,
            );
        }
        Some(floor_div(portfolio_value * risk_cap, risk))
    }
}

/// Computes `shares_by_position`.
pub fn shares_by_position_of(portfolio_value: i128, risk: i128, price: i128, risk_cap: i128) -> (shares:
    i128)
    requires
        1 <= portfolio_value <= MAX_PORTFOLIO,
        0 <= risk <= 3 * MAX_PRICE,
        1 <= price <= MAX_PRICE,
        0 <= risk_cap <= SCALE,
    ensures
        shares == shares_by_position(
            portfolio_value as int,
            risk as int,
            price as int,
            risk_cap as int,
        ),
        0 <= shares <= MAX_PORTFOLIO * SCALE,
{
    proof {
        lemma_product_bound(
            portfolio_value as int,
            risk_cap as int,
            MAX_PORTFOLIO as int,
            SCALE as int,
        );
        lemma_product_bound(risk_cap as int, price as int, SCALE as int, MAX_PRICE as int);
        lemma_product_bound(
            portfolio_value as int,
            risk_cap * 100,
            MAX_PORTFOLIO as int,
            100 * SCALE,
        );
        assert(portfolio_value * (risk_cap * 100) >= 0) by (nonlinear_arith)
            requires
                portfolio_value >= 0,
                risk_cap >= 0,
        ;
        assert(portfolio_value * risk_cap >= 0) by (nonlinear_arith)
            requires
                portfolio_value >= 0,
                risk_cap >= 0,
        ;
        lemma_div_monotone(0, portfolio_value * SCALE, price as int);
        vstd::arithmetic::div_mod::lemma_div_is_ordered_by_denominator(
            portfolio_value * SCALE,
            1,
            price as int,
        );
        lemma_div_monotone(0, portfolio_value * (risk_cap * 100), price as int);
        vstd::arithmetic::div_mod::lemma_div_is_ordered_by_denominator(
            portfolio_value * (risk_cap * 100),
            1,
            price as int,
        );
        if risk_cap * 100 <= SCALE {
            assert(portfolio_value * (risk_cap * 100) <= portfolio_value * SCALE)
                by (nonlinear_arith)
                requires
                    portfolio_value >= 0,
                    risk_cap * 100 <= SCALE,
            ;
        }
        assert(portfolio_value * SCALE <= MAX_PORTFOLIO * SCALE) by (nonlinear_arith)
            requires
                portfolio_value <= MAX_PORTFOLIO,
        ;
    }
    if risk * 100 >= price {
        if risk_cap * price <= SCALE * risk {
            let budget: i128 = portfolio_value * risk_cap;
            proof {
                let whole = portfolio_value * SCALE;
                assert(budget <= risk * whole) by (nonlinear_arith)
                    requires
                        budget == portfolio_value * risk_cap,
                        whole == portfolio_value * SCALE,
                        risk_cap * price <= SCALE * risk,
                        price >= 1,
                        risk_cap >= 0,
                        portfolio_value >= 0,
                        risk >= 0,
                ;
                lemma_div_monotone(budget as int, risk * whole, risk as int);
                vstd::arithmetic::div_mod::lemma_div_multiples_vanish(whole, risk as int);
                lemma_div_monotone(0, budget as int, risk as int);
            }
            floor_div(budget, risk)
        } else {
            floor_div(portfolio_value * SCALE, price)
        }
    } else if risk_cap * 100 <= SCALE {
        floor_div(portfolio_value * (risk_cap * 100), price)
    } else {
        floor_div(portfolio_value * SCALE, price)
    }
}

/// The whole shares within both bounds on the position.
pub fn whole_shares(by_risk: Option<i128>, by_position: i128) -> (shares: u64)
    requires
        by_risk matches Some(v) ==> 0 <= v <= MAX_PORTFOLIO * SCALE,
        0 <= by_position <= MAX_PORTFOLIO * SCALE,
    ensures
        shares == share_bound(crate::indicators::opt_int(by_risk), by_position as int) / (
        SCALE as int),
        shares <= MAX_PORTFOLIO,
{
    let bound: i128 = match by_risk {
        Some(r) if r < by_position => r,
        _ => by_position,
    };
    proof {
        lemma_div_monotone(0, bound as int, SCALE as int);
        lemma_div_monotone(bound as int, MAX_PORTFOLIO * SCALE, SCALE as int);
        vstd::arithmetic::div_mod::lemma_div_multiples_vanish(MAX_PORTFOLIO as int, SCALE as int);
    }
    let shares = floor_div(bound, SCALE);
    shares as u64
}

/// The values of a plan for the latest row of a history.
pub fn latest_values(
    latest: &SignalRow,
    atr: i128,
    volatility: Option<i128>,
    mode: &ExecutionMode,
    risk_cap: i128,
    portfolio_value: i128,
    min_signals: usize,
) -> (cv: ComputedValues)
    requires
        averages_ok(*latest),
        0 <= atr <= MAX_PRICE,
        0 <= mode.extended_threshold <= SCALE,
        0 <= risk_cap <= SCALE,
        1 <= portfolio_value <= MAX_PORTFOLIO,
    ensures
        values_ok(
            cv,
            *latest,
            atr as int,
            volatility,
            *mode,
            risk_cap as int,
            portfolio_value as int,
            min_signals as int,
        ),
        cv.wf(),
        cv.text_ready(),
{
    let price = latest.close;
    let ma30 = match latest.ma_long {
        Some(v) => v,
        None => price,
    };
    let ma7 = match latest.ma_short {
        Some(v) => v,
        None => price,
    };
    let rs_ma7 = match latest.rs_ma_short {
        Some(v) => v,
        None => RS_SCALE,
    };
    let rs_ma30 = match latest.rs_ma_long {
        Some(v) => v,
        None => RS_SCALE,
    };
    let trend_signal = price > ma30;
    let momentum_signal = ma7 > ma30;
    let rs_signal = rs_ma7 > rs_ma30;
    let all_signals = trend_signal && momentum_signal && rs_signal;
    let partial_signals = rs_signal && crate::signals::score(
        trend_signal,
        momentum_signal,
        rs_signal,
    ) >= min_signals;
    let risk: i128 = STOP_DISTANCE * atr;
    let by_risk = shares_by_risk_of(portfolio_value, risk, risk_cap);
    let by_position = shares_by_position_of(portfolio_value, risk, price, risk_cap);
    let shares = whole_shares(by_risk, by_position);
    let at_risk = ratio_of(risk, price);
    let half: u64 = shares / 2;
    let target: i128 = price + 2 * risk;
    proof {
        lemma_product_bound(shares as int, price as int, MAX_PORTFOLIO as int, MAX_PRICE as int);
        lemma_product_bound(shares as int, risk as int, MAX_PORTFOLIO as int, 3 * MAX_PRICE);
        lemma_product_bound(shares as int, 2 * risk, MAX_PORTFOLIO as int, 6 * MAX_PRICE);
        lemma_product_bound(half as int, target as int, MAX_PORTFOLIO as int, 7 * MAX_PRICE);
        lemma_product_bound(ma30 as int, SCALE + mode.extended_threshold, MAX_PRICE as int, 2 * SCALE);
    }
    let position_value: i128 = (shares as i128) * price;
    let is_extended = price * SCALE > ma30 * (SCALE + mode.extended_threshold);
    ComputedValues {
        current_price: price,
        ma30,
        ma7,
        rs_ma7,
        rs_ma30,
        atr_14: atr,
        volatility,
        trend_signal,
        momentum_signal,
        rs_signal,
        all_signals,
        partial_signals,
        stop_price: price - risk,
        risk_per_share: risk,
        max_shares_by_risk: by_risk,
        max_shares_by_position: by_position,
        recommended_shares: shares,
        position_value,
        position_percent: ratio_of(position_value, portfolio_value),
        profit_target: target,
        profit_target_percent: ratio_of(2 * risk, price) * 100,
        scale_out_shares: half,
        remaining_shares: shares - half,
        scale_out_value: (half as i128) * target,
        initial_stop: price - risk,
        stop_loss_percent: at_risk * 100,
        trailing_stop: price - risk,
        stop_distance_atr: STOP_DISTANCE * SCALE,
        portfolio_risk: ratio_of((shares as i128) * risk, portfolio_value),
        risk_reward_ratio: if risk == 0 {
            None
        } else {
            Some(ratio_of(2 * risk, risk))
        },
        max_loss: (shares as i128) * risk,
        max_gain: (shares as i128) * (2 * risk),
        is_extended,
        ma30_pullback_price: ma30,
        extended_percent: if is_extended {
            ratio_of(price - ma30, ma30) * 100
        } else {
            0
        },
        signal_strength: if all_signals {
            SCALE
        } else if partial_signals {
            SCALE / 2
        } else {
            0
        },
    }
}

impl ComputedValues {
    /// The values that are written into text are within the range of text.
    pub open spec fn text_ready(&self) -> bool {
        &&& -crate::text::TEXT_LIMIT <= self.risk_per_share <= crate::text::TEXT_LIMIT
        &&& -crate::text::TEXT_LIMIT <= self.max_shares_by_position <= crate::text::TEXT_LIMIT
        &&& self.max_shares_by_risk matches Some(v) ==> -crate::text::TEXT_LIMIT <= v
            <= crate::text::TEXT_LIMIT
    }

    /// The market values are not negative and within the range of prices
    /// and relative strengths.
    pub open spec fn wf(&self) -> bool {
        &&& 0 <= self.rs_ma7 <= RS_LIMIT
        &&& 0 <= self.rs_ma30 <= RS_LIMIT
        &&& 0 <= self.current_price <= MAX_PRICE
        &&& 0 <= self.ma30 <= MAX_PRICE
        &&& 0 <= self.atr_14 <= 2 * MAX_PRICE
    }
}

/// What the risk cap of a strategy is derived from: its statistics and
/// the market values of its plan.
pub open spec fn risk_inputs_of(stats: StrategyAnalysis, cv: ComputedValues) -> RiskInputs {
    RiskInputs {
        sharpe_ratio: stats.sharpe_ratio,
        max_drawdown: stats.max_drawdown,
        win_rate: stats.win_rate,
        volatility: cv.volatility,
        total_return: stats.total_return,
        trading_days: stats.trading_days,
        profit_factor: stats.profit_factor,
        rs_ma7: cv.rs_ma7,
        rs_ma30: cv.rs_ma30,
        current_price: cv.current_price,
        ma30: cv.ma30,
        atr_14: cv.atr_14,
    }
}

/// The risk cap of a strategy as a ratio of the portfolio, between 0.2%
/// and 2.5%.
pub fn determine_risk_cap(stats: &StrategyAnalysis, cv: &ComputedValues) -> (cap: i128)
    ensures
        cap == risk_cap_thousandths(risk_inputs_of(*stats, *cv)) * (SCALE / 1000),
        2 * (SCALE / 1000) <= cap <= 25 * (SCALE / 1000),
{
    let inputs = RiskInputs {
        sharpe_ratio: stats.sharpe_ratio,
        max_drawdown: stats.max_drawdown,
        win_rate: stats.win_rate,
        volatility: cv.volatility,
        total_return: stats.total_return,
        trading_days: stats.trading_days,
        profit_factor: stats.profit_factor,
        rs_ma7: cv.rs_ma7,
        rs_ma30: cv.rs_ma30,
        current_price: cv.current_price,
        ma30: cv.ma30,
        atr_14: cv.atr_14,
    };
    blend_risk_cap(&inputs)
}

/// The history is valid and the averages of its latest day are in range.
pub open spec fn plan_ready(stats: StrategyAnalysis) -> bool {
    &&& history_ok(stats.signals@)
    &&& stats.signals.len() > 0 ==> averages_ok(stats.signals[stats.signals.len() - 1])
}

/// Whether a plan can be built from the analysis.
pub fn is_plan_ready(stats: &StrategyAnalysis) -> (b: bool)
    ensures
        b == plan_ready(*stats),
{
    let n = stats.signals.len();
    if n > MAX_DAYS {
        return false;
    }
    let mut i: usize = 0;
    while i < n
        invariant
            n == stats.signals.len(),
            n <= MAX_DAYS,
            i <= n,
            forall|j: int| 0 <= j < i ==> (#[trigger] stats.signals[j]).valid(),
        decreases n - i,
    {
        if !stats.signals[i].is_valid() {
            return false;
        }
        i = i + 1;
    }
    if n > 0 {
        has_valid_averages(&stats.signals[n - 1])
    } else {
        true
    }
}

/// What the values of a plan are: all zero for a history without a day,
/// else those of its latest day with the average true range of its closes.
pub open spec fn plan_values_ok(
    cv: ComputedValues,
    stats: StrategyAnalysis,
    volatility: Option<i128>,
    mode: ExecutionMode,
    risk_cap: int,
    portfolio_value: int,
    min_signals: int,
) -> bool {
    if stats.signals.len() == 0 {
        cv == empty_values()
    } else {
        values_ok(
            cv,
            stats.signals[stats.signals.len() - 1],
            close_atr(stats.signals@, ATR_PERIOD as int),
            volatility,
            mode,
            risk_cap,
            portfolio_value,
            min_signals,
        )
    }
}

/// The values of the plan of a strategy.
pub fn generate_computed_values(
    stats: &StrategyAnalysis,
    execution_mode: &ExecutionMode,
    risk_cap: i128,
    volatility: Option<i128>,
    portfolio_value: i128,
    min_signals: usize,
) -> (cv: ComputedValues)
    requires
        plan_ready(*stats),
        0 <= execution_mode.extended_threshold <= SCALE,
        0 <= risk_cap <= SCALE,
        1 <= portfolio_value <= MAX_PORTFOLIO,
    ensures
        plan_values_ok(
            cv,
            *stats,
            volatility,
            *execution_mode,
            risk_cap as int,
            portfolio_value as int,
            min_signals as int,
        ),
        cv.wf(),
        cv.text_ready(),
{
    let n = stats.signals.len();
    if n == 0 {
        return ComputedValues::default();
    }
    let atr = calculate_atr(&stats.signals, ATR_PERIOD);
    latest_values(
        &stats.signals[n - 1],
        atr,
        volatility,
        execution_mode,
        risk_cap,
        portfolio_value,
        min_signals,
    )
}

} // verus!

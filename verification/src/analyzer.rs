//! The performance analyzer: statistics of one asset's signal history, and
//! the ranking of the profitable ones.

use vstd::prelude::*;
use crate::fixed::{
    all_within, clamp, clamp_to, coarse, compound, compound_of, floor_div, lemma_product_bound,
    to_coarse, EQUITY_LIMIT, FINE, FINE_PER_UNIT, MAX_DAYS, MAX_PRICE, RATIO_LIMIT, RETURN_LIMIT,
    SCALE,
};
use crate::signals::DailySignal;
use crate::stats::{
    ProfitFactor, average_gain, average_loss, gain_count, gain_sum, loss_count, loss_sum,
    max_drawdown_from, max_drawdown_of, max_of, min_of, profit_factor, profit_factor_of, sharpe,
    sharpe_of, tally, win_rate, win_rate_of,
};

verus! {

/// A raw weight of at most this magnitude counts as no position.
pub const WEIGHT_EPSILON: i128 = 100;

/// One day of a signal history as the analyzer reads it.
#[derive(Clone, Copy, Debug)]
pub struct SignalRow {
    pub date: i32,
    pub close: i128,
    pub ma_short: Option<i128>,
    pub ma_long: Option<i128>,
    pub rs: Option<i128>,
    pub rs_ma_short: Option<i128>,
    pub rs_ma_long: Option<i128>,
    pub trend_bull: bool,
    pub mom_bull: bool,
    pub rs_bull: bool,
    pub score: usize,
    pub raw_weight: i128,
    pub stop_level: Option<i128>,
}

impl SignalRow {
    /// The close is in range and the raw weight is between `-1` and `1`.
    pub open spec fn valid(&self) -> bool {
        &&& 1 <= self.close <= MAX_PRICE
        &&& -SCALE <= self.raw_weight <= SCALE
    }

    /// Whether the close is in range and the raw weight between `-1` and `1`.
    pub fn is_valid(&self) -> (b: bool)
        ensures
            b == self.valid(),
    {
        1 <= self.close && self.close <= MAX_PRICE && -SCALE <= self.raw_weight
            && self.raw_weight <= SCALE
    }

    /// The row that records a signal.
    pub fn from_signal(sig: &DailySignal) -> (row: SignalRow)
        ensures
            row.date == sig.date,
            row.close == sig.price,
            row.ma_short == sig.ma_short,
            row.ma_long == sig.ma_long,
            row.rs == sig.rs,
            row.rs_ma_short == sig.rs_ma_short,
            row.rs_ma_long == sig.rs_ma_long,
            row.trend_bull == sig.trend_bull,
            row.mom_bull == sig.mom_bull,
            row.rs_bull == sig.rs_bull,
            row.score == sig.score,
            row.raw_weight == sig.raw_weight,
            row.stop_level == sig.stop_level,
            row.valid() == sig.valid(),
    {
        SignalRow {
            date: sig.date,
            close: sig.price,
            ma_short: sig.ma_short,
            ma_long: sig.ma_long,
            rs: sig.rs,
            rs_ma_short: sig.rs_ma_short,
            rs_ma_long: sig.rs_ma_long,
            trend_bull: sig.trend_bull,
            mom_bull: sig.mom_bull,
            rs_bull: sig.rs_bull,
            score: sig.score,
            raw_weight: sig.raw_weight,
            stop_level: sig.stop_level,
        }
    }

    /// The close of the day.
    pub fn close(&self) -> (v: i128)
        ensures
            v == self.close,
    {
        self.close
    }

    /// The short average of the closes.
    pub fn ma_short(&self) -> (v: Option<i128>)
        ensures
            v == self.ma_short,
    {
        self.ma_short
    }

    /// The long average of the closes.
    pub fn ma_long(&self) -> (v: Option<i128>)
        ensures
            v == self.ma_long,
    {
        self.ma_long
    }

    /// The short average of the relative strength.
    pub fn rs_ma_short(&self) -> (v: Option<i128>)
        ensures
            v == self.rs_ma_short,
    {
        self.rs_ma_short
    }

    /// The long average of the relative strength.
    pub fn rs_ma_long(&self) -> (v: Option<i128>)
        ensures
            v == self.rs_ma_long,
    {
        self.rs_ma_long
    }
}

/// The day carries a position: its raw weight exceeds `WEIGHT_EPSILON` in
/// magnitude.
pub open spec fn is_trading(s: SignalRow) -> bool {
    s.raw_weight > WEIGHT_EPSILON || s.raw_weight < -WEIGHT_EPSILON
}

/// Whether the day carries a position.
pub fn is_trading_day(s: &SignalRow) -> (b: bool)
    ensures
        b == is_trading(*s),
{
    s.raw_weight > WEIGHT_EPSILON || s.raw_weight < -WEIGHT_EPSILON
}

/// The return of a trading day, in fine units: its raw weight times the
/// change of the close since the first day of the history, relative to that
/// first close.
pub open spec fn trade_return(s: SignalRow, first: SignalRow) -> int {
    clamp(
        s.raw_weight * (s.close - first.close) * FINE_PER_UNIT / (first.close as int),
        -RETURN_LIMIT,
        RETURN_LIMIT as int,
    )
}

/// The returns of the trading days among the first `k` days, in order and
/// in fine units.
pub open spec fn trading_returns(signals: Seq<SignalRow>, k: int) -> Seq<i128>
    decreases k,
{
    if k <= 0 {
        Seq::empty()
    } else if is_trading(signals[k - 1]) {
        trading_returns(signals, k - 1).push(trade_return(signals[k - 1], signals[0]) as i128)
    } else {
        trading_returns(signals, k - 1)
    }
}

/// Fine returns as ratios, each rounded down; the statistics of the
/// single returns are taken from these.
pub open spec fn coarse_returns(rets: Seq<i128>) -> Seq<i128> {
    Seq::new(rets.len(), |i: int| coarse(rets[i] as int) as i128)
}

/// The returns of the trading days of a history as ratios.
pub open spec fn trading_ratios(signals: Seq<SignalRow>) -> Seq<i128> {
    coarse_returns(trading_returns(signals, signals.len() as int))
}

/// The cumulative return after the first `k` fine returns, in fine units;
/// it starts at `1` and compounds.
pub open spec fn cumulative_return(rets: Seq<i128>, k: int) -> int
    decreases k,
{
    if k <= 0 {
        FINE as int
    } else {
        compound(cumulative_return(rets, k - 1), rets[k - 1] as int)
    }
}

/// The path of the cumulative return, one point per return.
pub open spec fn cumulative_path(rets: Seq<i128>) -> Seq<i128> {
    Seq::new(rets.len(), |i: int| cumulative_return(rets, i + 1) as i128)
}

/// Every day of a history of at most `MAX_DAYS` days is valid.
pub open spec fn history_ok(signals: Seq<SignalRow>) -> bool {
    &&& signals.len() <= MAX_DAYS
    &&& forall|i: int| 0 <= i < signals.len() ==> (#[trigger] signals[i]).valid()
}

/// Whether every day of a history of at most `MAX_DAYS` days is valid.
pub fn is_history_ok(signals: &Vec<SignalRow>) -> (b: bool)
    ensures
        b == history_ok(signals@),
{
    let n = signals.len();
    if n > MAX_DAYS {
        return false;
    }
    let mut i: usize = 0;
    while i < n
        invariant
            n == signals.len(),
            n <= MAX_DAYS,
            i <= n,
            forall|j: int| 0 <= j < i ==> (#[trigger] signals[j]).valid(),
        decreases n - i,
    {
        if !signals[i].is_valid() {
            return false;
        }
        i = i + 1;
    }
    true
}

/// The statistics of one asset's signal history. The total return is in
/// fine units, `FINE` standing for `1`; the other statistics are ratios.
#[derive(Clone, Debug)]
pub struct StrategyAnalysis {
    pub asset: String,
    pub total_days: usize,
    pub trading_days: usize,
    /// The cumulative return less one, in fine units.
    pub total_return: i128,
    pub max_return: i128,
    pub min_return: i128,
    pub win_rate: i128,
    pub avg_win: i128,
    pub avg_loss: i128,
    pub profit_factor: ProfitFactor,
    pub max_drawdown: i128,
    pub sharpe_ratio: i128,
    pub signals: Vec<SignalRow>,
}

/// The returns of the trading days of a history in fine units, the same
/// as ratios, and the path of their cumulative return.
pub fn trading_history(signals: &Vec<SignalRow>) -> (r: (Vec<i128>, Vec<i128>, Vec<i128>))
    requires
        history_ok(signals@),
    ensures
        r.0@ == trading_returns(signals@, signals.len() as int),
        r.1@ == coarse_returns(r.0@),
        r.2@ == cumulative_path(r.0@),
        r.0.len() <= signals.len(),
        all_within(r.0@, RETURN_LIMIT as int),
        all_within(r.1@, RATIO_LIMIT as int),
        all_within(r.2@, EQUITY_LIMIT as int),
{
    let n = signals.len();
    let mut rets: Vec<i128> = Vec::new();
    let mut ratios: Vec<i128> = Vec::new();
    let mut path: Vec<i128> = Vec::new();
    let mut cum: i128 = FINE;
    let mut k: usize = 0;
    while k < n
        invariant
            n == signals.len(),
            history_ok(signals@),
            k <= n,
            rets@ == trading_returns(signals@, k as int),
            rets.len() <= k,
            path.len() == rets.len(),
            ratios.len() == rets.len(),
            cum == cumulative_return(rets@, rets.len() as int),
            -EQUITY_LIMIT <= cum <= EQUITY_LIMIT,
            forall|j: int| 0 <= j < path.len() ==> #[trigger] path[j] == cumulative_return(rets@, j + 1),
            forall|j: int| 0 <= j < ratios.len() ==> #[trigger] ratios[j] == coarse(rets[j] as int),
            all_within(rets@, RETURN_LIMIT as int),
            all_within(ratios@, RATIO_LIMIT as int),
            all_within(path@, EQUITY_LIMIT as int),
        decreases n - k,
    {
        let s = signals[k];
        if is_trading_day(&s) {
            let first = signals[0];
            proof {
                lemma_product_bound(
                    s.raw_weight as int,
                    s.close - first.close,
                    SCALE as int,
                    MAX_PRICE as int,
                );
            }
            let moved: i128 = s.raw_weight * (s.close - first.close);
            let r = clamp_to(floor_div(moved * FINE_PER_UNIT, first.close), -RETURN_LIMIT, RETURN_LIMIT);
            let next = compound_of(cum, r);
            let ghost old_rets = rets@;
            rets.push(r);
            ratios.push(to_coarse(r));
            path.push(next);
            proof {
                assert forall|j: int| 0 <= j <= old_rets.len() implies cumulative_return(
                    rets@,
                    j,
                ) == cumulative_return(old_rets, j) by {
                    lemma_cumulative_prefix(old_rets, rets@, j);
                }
                assert(rets@[old_rets.len() as int] == r);
            }
            cum = next;
        }
        k = k + 1;
    }
    assert(ratios@ =~= coarse_returns(rets@));
    assert(path@ =~= cumulative_path(rets@));
    (rets, ratios, path)
}

/// The cumulative return after `k` returns depends on the first `k` only.
pub proof fn lemma_cumulative_prefix(a: Seq<i128>, b: Seq<i128>, k: int)
    requires
        0 <= k <= a.len() <= b.len(),
        forall|i: int| 0 <= i < a.len() ==> a[i] == b[i],
    ensures
        cumulative_return(a, k) == cumulative_return(b, k),
    decreases k,
{
    if k > 0 {
        lemma_cumulative_prefix(a, b, k - 1);
    }
}

impl StrategyAnalysis {
    /// Analyses the signal history of `asset`. The total return and the
    /// drawdown are taken from the path that the fine returns compound to;
    /// the statistics of the single returns from the returns as ratios.
    pub fn new(asset: String, signals: Vec<SignalRow>) -> (a: StrategyAnalysis)
        requires
            history_ok(signals@),
        ensures
            a.asset == asset,
            a.signals == signals,
            a.total_days == signals.len(),
            a.trading_days == trading_returns(signals@, signals.len() as int).len(),
            a.total_return == cumulative_return(
                trading_returns(signals@, signals.len() as int),
                a.trading_days as int,
            ) - FINE,
            a.max_return == max_of(trading_ratios(signals@), a.trading_days as int),
            a.min_return == min_of(trading_ratios(signals@), a.trading_days as int),
            a.win_rate == win_rate_of(trading_ratios(signals@)),
            a.avg_win == average_gain(trading_ratios(signals@)),
            a.avg_loss == average_loss(trading_ratios(signals@)),
            a.profit_factor == profit_factor_of(trading_ratios(signals@)),
            a.max_drawdown == max_drawdown_of(
                cumulative_path(trading_returns(signals@, signals.len() as int)),
                FINE as int,
                a.trading_days as int,
            ),
            a.sharpe_ratio == sharpe_of(trading_ratios(signals@)),
            a.wf(),
    {
        let (rets, ratios, path) = trading_history(&signals);
        let t = tally(&ratios);
        let total_return: i128 = if path.len() == 0 {
            0
        } else {
            path[path.len() - 1] - FINE
        };
        let avg_win: i128 = if t.gain_count == 0 {
            0
        } else {
            floor_div(t.gain_sum, t.gain_count as i128)
        };
        let avg_loss: i128 = if t.loss_count == 0 {
            0
        } else {
            floor_div(t.loss_sum, t.loss_count as i128)
        };
        StrategyAnalysis {
            asset,
            total_days: signals.len(),
            trading_days: rets.len(),
            total_return,
            max_return: t.max,
            min_return: t.min,
            win_rate: win_rate(&ratios),
            avg_win,
            avg_loss,
            profit_factor: profit_factor(&ratios),
            max_drawdown: max_drawdown_from(&path, FINE),
            sharpe_ratio: sharpe(&ratios),
            signals,
        }
    }

    /// The statistics are within the ranges that the analysis produces.
    pub open spec fn wf(&self) -> bool {
        &&& self.trading_days <= MAX_DAYS
        &&& -2 * EQUITY_LIMIT <= self.total_return <= 2 * EQUITY_LIMIT
        &&& 0 <= self.win_rate <= SCALE
        &&& 0 <= self.max_drawdown <= RATIO_LIMIT
        &&& -RATIO_LIMIT <= self.sharpe_ratio <= RATIO_LIMIT
        &&& history_ok(self.signals@)
    }

    /// Whether the statistics are within the ranges that the analysis
    /// produces.
    pub fn is_wf(&self) -> (b: bool)
        ensures
            b == self.wf(),
    {
        self.trading_days <= MAX_DAYS && -2 * EQUITY_LIMIT <= self.total_return
            && self.total_return <= 2 * EQUITY_LIMIT && 0 <= self.win_rate && self.win_rate <= SCALE
            && 0 <= self.max_drawdown && self.max_drawdown <= RATIO_LIMIT && -RATIO_LIMIT
            <= self.sharpe_ratio && self.sharpe_ratio <= RATIO_LIMIT && is_history_ok(&self.signals)
    }

    /// A strategy is profitable when its total return is positive, it wins
    /// more than half of its trading days, and its profit factor exceeds one.
    pub open spec fn profitable(&self) -> bool {
        &&& self.total_return > 0
        &&& self.win_rate > SCALE / 2
        &&& match self.profit_factor {
            ProfitFactor::Infinite => true,
            ProfitFactor::Finite(v) => v > SCALE,
        }
    }

    /// Whether the strategy is profitable.
    pub fn is_profitable(&self) -> (b: bool)
        ensures
            b == self.profitable(),
    {
        self.total_return > 0 && self.win_rate > SCALE / 2 && match self.profit_factor {
            ProfitFactor::Infinite => true,
            ProfitFactor::Finite(v) => v > SCALE,
        }
    }

    /// The name of the asset.
    pub fn asset(&self) -> (v: &String)
        ensures
            v == self.asset,
    {
        &self.asset
    }

    /// The cumulative return less one, in fine units.
    pub fn total_return(&self) -> (v: i128)
        ensures
            v == self.total_return,
    {
        self.total_return
    }

    /// Mean over sample deviation of the returns of the trading days.
    pub fn sharpe_ratio(&self) -> (v: i128)
        ensures
            v == self.sharpe_ratio,
    {
        self.sharpe_ratio
    }

    /// The share of trading days with a gain.
    pub fn win_rate(&self) -> (v: i128)
        ensures
            v == self.win_rate,
    {
        self.win_rate
    }

    /// The largest decline of the cumulative return from its running peak.
    pub fn max_drawdown(&self) -> (v: i128)
        ensures
            v == self.max_drawdown,
    {
        self.max_drawdown
    }

    /// The number of days that carry a position.
    pub fn trading_days(&self) -> (v: usize)
        ensures
            v == self.trading_days,
    {
        self.trading_days
    }

    /// The history that was analysed.
    pub fn signals(&self) -> (v: &Vec<SignalRow>)
        ensures
            v == self.signals,
    {
        &self.signals
    }

    /// Sum of gains over the magnitude of the sum of losses.
    pub fn profit_factor(&self) -> (v: ProfitFactor)
        ensures
            v == self.profit_factor,
    {
        self.profit_factor
    }
}

} // verus!

//! The trade plan of one strategy: its rules in words, its sizes and
//! statistics in numbers, and the lines of its playbook.

use vstd::prelude::*;
use vstd::string::StringExecFns;
use crate::analyzer::StrategyAnalysis;
use crate::insights::AssetMetrics;
use crate::fixed::{FINE, SCALE};
use crate::ranking::{is_ranking, profitable_flags, rank_by_total_return, total_returns};
use crate::text::{
    decimal_text, fine_text, join_strings, joined, natural_text, push_decimal, push_fine,
    push_natural, texts,
};
use crate::trade::{
    ComputedValues, Conviction, ExecutionMode, conviction_tier, determine_conviction,
    determine_execution_mode, determine_risk_cap, execution_mode_of, generate_computed_values,
    plan_ready, plan_values_ok, risk_cap_thousandths, risk_inputs_of, MAX_PORTFOLIO,
};

verus! {

/// The conditions of the three signals and of the two weights, in words.
#[derive(Clone, Debug)]
pub struct SignalConditions {
    pub trend: String,
    pub momentum: String,
    pub rs: String,
    pub full_weight_condition: String,
    pub half_weight_condition: String,
}

/// How a position is entered, in words.
#[derive(Clone, Debug)]
pub struct EntryRules {
    pub primary: String,
    pub alternative: String,
    pub signal_conditions: SignalConditions,
}

/// How a position is left, in words.
#[derive(Clone, Debug)]
pub struct ExitRules {
    pub profit_taking: String,
    pub stop_loss: String,
    pub trailing_stop: String,
    pub hard_exit_conditions: String,
}

/// The weights of the two kinds of entry and the risk cap, in percent of
/// the portfolio.
#[derive(Clone, Debug)]
pub struct PositionSizing {
    pub full_weight: i128,
    pub half_weight: i128,
    pub risk_cap_percent: i128,
    pub risk_calculation: String,
}

/// The statistics of the backtest, ratios in percent.
#[derive(Clone, Debug)]
pub struct BacktestStats {
    /// In fine units, `FINE` standing for one percent.
    pub total_return_percent: i128,
    pub sharpe_ratio: i128,
    pub win_rate_percent: i128,
    pub max_drawdown_percent: i128,
    pub trading_days: usize,
    pub expected_return: String,
}

/// The plan of one strategy.
#[derive(Clone, Debug)]
pub struct TradePlan {
    pub asset: String,
    pub entry_rules: EntryRules,
    pub exit_rules: ExitRules,
    pub position_sizing: PositionSizing,
    pub conviction: Conviction,
    pub backtest_stats: BacktestStats,
    pub computed_values: ComputedValues,
    pub notes: String,
}

/// The notes of a strategy where no others are at hand: one for a total
/// return above ten, one for a Sharpe ratio above four, one for a maximum
/// drawdown above five percent, in this order. The total return is in fine
/// units, the other two are ratios.
pub open spec fn note_parts(total_return: int, sharpe: int, max_drawdown: int) -> Seq<Seq<char>> {
    (if total_return > 10 * FINE {
        seq!["High-momentum outlier; widen slippage buffer and enforce risk caps"@]
    } else {
        Seq::empty()
    }) + (if sharpe > 4 * SCALE {
        seq!["Best risk-adjusted name in the strategy set"@]
    } else {
        Seq::empty()
    }) + (if max_drawdown > SCALE / 20 {
        seq!["Higher volatility; consider earlier partials to reduce giveback"@]
    } else {
        Seq::empty()
    })
}

/// The notes joined, or a standard note where there is none.
pub open spec fn notes_text(total_return: int, sharpe: int, max_drawdown: int) -> Seq<char> {
    let parts = note_parts(total_return, sharpe, max_drawdown);
    if parts.len() == 0 {
        "Standard execution with risk management"@
    } else {
        joined(parts, "; "@)
    }
}

/// The notes of a strategy from its statistics alone; they are the same
/// at every rank.
pub fn generate_asset_notes(stats: &StrategyAnalysis, rank: usize) -> (notes: String)
    ensures
        notes@ == notes_text(
            stats.total_return as int,
            stats.sharpe_ratio as int,
            stats.max_drawdown as int,
        ),
{
    let mut parts: Vec<String> = Vec::new();
    if stats.total_return > 10 * FINE {
        parts.push("High-momentum outlier; widen slippage buffer and enforce risk caps".to_owned());
    }
    let ghost one = texts(parts@);
    if stats.sharpe_ratio > 4 * SCALE {
        parts.push("Best risk-adjusted name in the strategy set".to_owned());
    }
    let ghost two = texts(parts@);
    if stats.max_drawdown > SCALE / 20 {
        parts.push("Higher volatility; consider earlier partials to reduce giveback".to_owned());
    }
    proof {
        assert(texts(parts@) =~= note_parts(
            stats.total_return as int,
            stats.sharpe_ratio as int,
            stats.max_drawdown as int,
        ));
    }
    if parts.len() == 0 {
        "Standard execution with risk management".to_owned()
    } else {
        join_strings(&parts, "; ")
    }
}

/// The primary entry rule: the signal entry, and either the pullback entry
/// with its extension threshold in percent or signal-at-close execution.
pub open spec fn primary_entry_text(mode: ExecutionMode) -> Seq<char> {
    if mode.pullback_to_ma30 {
        "Go long EOD when 3/3 signals (trend + momentum + RS). "@
            + "Alt entry: Limit buy at MA30 if price is extended (>"@ + decimal_text(
            mode.extended_threshold * 100,
            0,
        ) + "% above MA30) on signal day."@
    } else {
        "Go long EOD when 3/3 signals (trend + momentum + RS). "@
            + "Use signal-at-close execution only."@
    }
}

/// The alternative entry rule.
pub open spec fn alternative_entry_text(mode: ExecutionMode) -> Seq<char> {
    if mode.pullback_to_ma30 {
        "Staggered entry: 50% at signal close, 50% at MA30 limit if extended."@
    } else {
        "Market-on-close entry preferred due to liquidity constraints."@
    }
}

/// The entry rules of an execution mode.
pub fn entry_rules(mode: &ExecutionMode) -> (rules: EntryRules)
    requires
        0 <= mode.extended_threshold <= SCALE,
    ensures
        rules.primary@ == primary_entry_text(*mode),
        rules.alternative@ == alternative_entry_text(*mode),
        rules.signal_conditions.trend@ == "close > MA30"@,
        rules.signal_conditions.momentum@ == "MA7 > MA30"@,
        rules.signal_conditions.rs@ == "RS_MA7 > RS_MA30"@,
        rules.signal_conditions.full_weight_condition@ == "3/3 signals = 1.00 raw weight"@,
        rules.signal_conditions.half_weight_condition@
            == ">=2/3 AND RS bullish = 0.50 raw weight"@,
{
    let mut primary = "Go long EOD when 3/3 signals (trend + momentum + RS). ".to_owned();
    if mode.pullback_to_ma30 {
        primary.append("Alt entry: Limit buy at MA30 if price is extended (>");
        push_decimal(&mut primary, mode.extended_threshold * 100, 0);
        primary.append("% above MA30) on signal day.");
    } else {
        primary.append("Use signal-at-close execution only.");
    }
    let alternative = if mode.pullback_to_ma30 {
        "Staggered entry: 50% at signal close, 50% at MA30 limit if extended.".to_owned()
    } else {
        "Market-on-close entry preferred due to liquidity constraints.".to_owned()
    };
    EntryRules {
        primary,
        alternative,
        signal_conditions: SignalConditions {
            trend: "close > MA30".to_owned(),
            momentum: "MA7 > MA30".to_owned(),
            rs: "RS_MA7 > RS_MA30".to_owned(),
            full_weight_condition: "3/3 signals = 1.00 raw weight".to_owned(),
            half_weight_condition: ">=2/3 AND RS bullish = 0.50 raw weight".to_owned(),
        },
    }
}

/// The exit rules, the same for every plan.
pub fn exit_rules() -> (rules: ExitRules)
    ensures
        rules.profit_taking@
            == "Scale 50% at +2R (R = initial risk from entry to stop), then trail the rest"@,
        rules.stop_loss@
            == "Initial stop: close - 3.0 x ATR14 (fallback: close x (1 - 2.5 x rolling_std14))"@,
        rules.trailing_stop@
            == "Ratchet stop to max(prior stop, close - 3.0 x ATR14) each day"@,
        rules.hard_exit_conditions@
            == "Hard exit if close < MA30 or RS flips bearish (RS_MA7 < RS_MA30)"@,
{
    ExitRules {
        profit_taking: "Scale 50% at +2R (R = initial risk from entry to stop), then trail the rest".to_owned(),
        stop_loss: "Initial stop: close - 3.0 x ATR14 (fallback: close x (1 - 2.5 x rolling_std14))".to_owned(),
        trailing_stop: "Ratchet stop to max(prior stop, close - 3.0 x ATR14) each day".to_owned(),
        hard_exit_conditions: "Hard exit if close < MA30 or RS flips bearish (RS_MA7 < RS_MA30)".to_owned(),
    }
}

/// The text of a share count in units of `1 / SCALE` of a share, without
/// decimal places; `inf` where nothing bounds the count.
pub open spec fn share_count_text(shares: Option<i128>) -> Seq<char> {
    match shares {
        Some(v) => decimal_text(v as int, 0),
        None => "inf"@,
    }
}

/// How the position is sized, in words and with the numbers of the plan.
pub open spec fn risk_calculation_text(risk_cap: int, cv: ComputedValues) -> Seq<char> {
    "R = entry_price - stop_price; units = min(raw_weight_normalized x portfolio_value / entry_price, ("@
        + decimal_text(risk_cap * 100, 1) + "% x portfolio_value) / R) Risk per share: $"@
        + decimal_text(cv.risk_per_share as int, 2) + ", Max shares by risk: "@ + share_count_text(
        cv.max_shares_by_risk,
    ) + ", Max shares by position: "@ + decimal_text(cv.max_shares_by_position as int, 0)
        + ", Recommended: "@ + natural_text(cv.recommended_shares as nat)
}

/// The expected return of a plan as one line of text.
pub open spec fn expected_return_text(stats: StrategyAnalysis) -> Seq<char> {
    "+"@ + fine_text(stats.total_return * 100, 2) + "%, Sharpe "@ + decimal_text(
        stats.sharpe_ratio as int,
        2,
    ) + ", Win "@ + decimal_text(stats.win_rate * 100, 1) + "%, MaxDD "@ + decimal_text(
        stats.max_drawdown * 100,
        2,
    ) + "%, "@ + natural_text(stats.trading_days as nat) + " days"@
}

/// The text that sizes the position.
pub fn risk_calculation(risk_cap: i128, cv: &ComputedValues) -> (t: String)
    requires
        0 <= risk_cap <= SCALE,
        cv.text_ready(),
    ensures
        t@ == risk_calculation_text(risk_cap as int, *cv),
{
    let mut t = "R = entry_price - stop_price; units = min(raw_weight_normalized x portfolio_value / entry_price, (".to_owned();
    push_decimal(&mut t, risk_cap * 100, 1);
    t.append("% x portfolio_value) / R) Risk per share: $");
    push_decimal(&mut t, cv.risk_per_share, 2);
    t.append(", Max shares by risk: ");
    match cv.max_shares_by_risk {
        Some(v) => {
            push_decimal(&mut t, v, 0);
        },
        None => {
            t.append("inf");
        },
    }
    t.append(", Max shares by position: ");
    push_decimal(&mut t, cv.max_shares_by_position, 0);
    t.append(", Recommended: ");
    push_natural(&mut t, cv.recommended_shares as u128);
    t
}

/// The text of the expected return.
pub fn expected_return(stats: &StrategyAnalysis) -> (t: String)
    requires
        stats.wf(),
    ensures
        t@ == expected_return_text(*stats),
{
    let mut t = "+".to_owned();
    push_fine(&mut t, stats.total_return * 100, 2);
    t.append("%, Sharpe ");
    push_decimal(&mut t, stats.sharpe_ratio, 2);
    t.append(", Win ");
    push_decimal(&mut t, stats.win_rate * 100, 1);
    t.append("%, MaxDD ");
    push_decimal(&mut t, stats.max_drawdown * 100, 2);
    t.append("%, ");
    push_natural(&mut t, stats.trading_days as u128);
    t.append(" days");
    t
}

/// What the plan of a strategy is, part by part: the rules of its
/// execution mode, the conviction of its tier, its statistics in percent,
/// the risk cap blended from its statistics and market values, the values
/// computed with that cap, and the notes handed in or, without them, the
/// notes from its statistics.
pub open spec fn plan_ok(
    plan: TradePlan,
    stats: StrategyAnalysis,
    volatility: Option<i128>,
    portfolio_value: int,
    min_signals: int,
    notes: Option<String>,
) -> bool {
    let mode = execution_mode_of(
        stats.sharpe_ratio as int,
        stats.win_rate as int,
        stats.max_drawdown as int,
        stats.trading_days as int,
        stats.profit_factor,
    );
    let tier = conviction_tier(
        stats.sharpe_ratio as int,
        stats.win_rate as int,
        stats.max_drawdown as int,
    );
    let cap = risk_cap_thousandths(risk_inputs_of(stats, plan.computed_values)) * (SCALE / 1000);
    &&& plan.asset == stats.asset
    &&& plan.entry_rules.primary@ == primary_entry_text(mode)
    &&& plan.entry_rules.alternative@ == alternative_entry_text(mode)
    &&& plan.entry_rules.signal_conditions.trend@ == "close > MA30"@
    &&& plan.entry_rules.signal_conditions.momentum@ == "MA7 > MA30"@
    &&& plan.entry_rules.signal_conditions.rs@ == "RS_MA7 > RS_MA30"@
    &&& plan.entry_rules.signal_conditions.full_weight_condition@
        == "3/3 signals = 1.00 raw weight"@
    &&& plan.entry_rules.signal_conditions.half_weight_condition@
        == ">=2/3 AND RS bullish = 0.50 raw weight"@
    &&& plan.exit_rules.profit_taking@
        == "Scale 50% at +2R (R = initial risk from entry to stop), then trail the rest"@
    &&& plan.exit_rules.stop_loss@
        == "Initial stop: close - 3.0 x ATR14 (fallback: close x (1 - 2.5 x rolling_std14))"@
    &&& plan.exit_rules.trailing_stop@
        == "Ratchet stop to max(prior stop, close - 3.0 x ATR14) each day"@
    &&& plan.exit_rules.hard_exit_conditions@
        == "Hard exit if close < MA30 or RS flips bearish (RS_MA7 < RS_MA30)"@
    &&& plan.position_sizing.full_weight == SCALE
    &&& plan.position_sizing.half_weight == SCALE / 2
    &&& plan.position_sizing.risk_cap_percent == cap * 100
    &&& plan.position_sizing.risk_calculation@ == risk_calculation_text(cap, plan.computed_values)
    &&& plan.conviction.high_conviction == tier.high_conviction()
    &&& plan.conviction.medium_conviction == tier.medium_conviction()
    &&& plan.conviction.rationale@ == tier.rationale()
    &&& plan.backtest_stats.total_return_percent == stats.total_return * 100
    &&& plan.backtest_stats.sharpe_ratio == stats.sharpe_ratio
    &&& plan.backtest_stats.win_rate_percent == stats.win_rate * 100
    &&& plan.backtest_stats.max_drawdown_percent == stats.max_drawdown * 100
    &&& plan.backtest_stats.trading_days == stats.trading_days
    &&& plan.backtest_stats.expected_return@ == expected_return_text(stats)
    &&& plan_values_ok(
        plan.computed_values,
        stats,
        volatility,
        mode,
        cap,
        portfolio_value,
        min_signals,
    )
    &&& plan.notes@ == match notes {
        Some(t) => t@,
        None => notes_text(
            stats.total_return as int,
            stats.sharpe_ratio as int,
            stats.max_drawdown as int,
        ),
    }
}

/// The metrics of a strategy that insights are asked for: its statistics,
/// win rate and maximum drawdown in percent, and the market values of its
/// plan.
pub fn plan_metrics(stats: &StrategyAnalysis, cv: &ComputedValues) -> (m: AssetMetrics)
    requires
        stats.wf(),
    ensures
        m.asset == stats.asset,
        m.total_return == stats.total_return,
        m.sharpe_ratio == stats.sharpe_ratio,
        m.win_rate == stats.win_rate * 100,
        m.max_drawdown == stats.max_drawdown * 100,
        m.trading_days == stats.trading_days,
        m.profit_factor == stats.profit_factor,
        m.current_price == cv.current_price,
        m.ma30 == cv.ma30,
        m.ma7 == cv.ma7,
        m.rs_ma7 == cv.rs_ma7,
        m.rs_ma30 == cv.rs_ma30,
        m.atr_14 == cv.atr_14,
        m.volatility == cv.volatility,
{
    AssetMetrics {
        asset: stats.asset.clone(),
        total_return: stats.total_return,
        sharpe_ratio: stats.sharpe_ratio,
        win_rate: stats.win_rate * 100,
        max_drawdown: stats.max_drawdown * 100,
        trading_days: stats.trading_days as u32,
        profit_factor: stats.profit_factor,
        current_price: cv.current_price,
        ma30: cv.ma30,
        ma7: cv.ma7,
        rs_ma7: cv.rs_ma7,
        rs_ma30: cv.rs_ma30,
        atr_14: cv.atr_14,
        volatility: cv.volatility,
    }
}

impl TradePlan {
    /// The values of the plan of a strategy: those computed with the risk
    /// cap that is blended from its statistics and market values.
    pub fn values_for(
        analysis: &StrategyAnalysis,
        volatility: Option<i128>,
        portfolio_value: i128,
        min_signals: usize,
    ) -> (values: ComputedValues)
        requires
            plan_ready(*analysis),
            1 <= portfolio_value <= MAX_PORTFOLIO,
        ensures
            plan_values_ok(
                values,
                *analysis,
                volatility,
                execution_mode_of(
                    analysis.sharpe_ratio as int,
                    analysis.win_rate as int,
                    analysis.max_drawdown as int,
                    analysis.trading_days as int,
                    analysis.profit_factor,
                ),
                risk_cap_thousandths(risk_inputs_of(*analysis, values)) * (SCALE / 1000),
                portfolio_value as int,
                min_signals as int,
            ),
            values.wf(),
            values.text_ready(),
    {
        let mode = determine_execution_mode(analysis);
        let first = generate_computed_values(
            analysis,
            &mode,
            SCALE / 100,
            volatility,
            portfolio_value,
            min_signals,
        );
        let risk_cap = determine_risk_cap(analysis, &first);
        let values = generate_computed_values(
            analysis,
            &mode,
            risk_cap,
            volatility,
            portfolio_value,
            min_signals,
        );
        proof {
            assert(risk_inputs_of(*analysis, first) == risk_inputs_of(*analysis, values));
        }
        values
    }

    /// Builds the plan of a strategy. The volatility of the asset and the
    /// notes on it come from outside; without notes the plan carries the
    /// notes from the statistics. `min_signals` is the number of signals
    /// that a half weight needs in the signal engine. The rank does not
    /// change the plan; it heads the lines of the playbook. Whatever the
    /// statistics, the risk cap of the plan lies between 0.2 and 2.5
    /// percent.
    pub fn from_analysis(
        analysis: &StrategyAnalysis,
        rank: usize,
        volatility: Option<i128>,
        portfolio_value: i128,
        min_signals: usize,
        notes: Option<String>,
    ) -> (plan: TradePlan)
        requires
            analysis.wf(),
            plan_ready(*analysis),
            1 <= portfolio_value <= MAX_PORTFOLIO,
        ensures
            plan_ok(
                plan,
                *analysis,
                volatility,
                portfolio_value as int,
                min_signals as int,
                notes,
            ),
            plan.asset == analysis.asset,
            plan.backtest_stats.trading_days == analysis.trading_days,
            plan.position_sizing.risk_cap_percent == 100 * (risk_cap_thousandths(
                risk_inputs_of(*analysis, plan.computed_values),
            ) * (SCALE / 1000)),
            SCALE / 5 <= plan.position_sizing.risk_cap_percent <= 5 * SCALE / 2,
    {
        let conviction = determine_conviction(analysis);
        let mode = determine_execution_mode(analysis);
        let values = TradePlan::values_for(analysis, volatility, portfolio_value, min_signals);
        let risk_cap = determine_risk_cap(analysis, &values);
        let text = match notes {
            Some(t) => t,
            None => generate_asset_notes(analysis, rank),
        };
        TradePlan {
            asset: analysis.asset.clone(),
            entry_rules: entry_rules(&mode),
            exit_rules: exit_rules(),
            position_sizing: PositionSizing {
                full_weight: SCALE,
                half_weight: SCALE / 2,
                risk_cap_percent: risk_cap * 100,
                risk_calculation: risk_calculation(risk_cap, &values),
            },
            conviction,
            backtest_stats: BacktestStats {
                total_return_percent: analysis.total_return * 100,
                sharpe_ratio: analysis.sharpe_ratio,
                win_rate_percent: analysis.win_rate * 100,
                max_drawdown_percent: analysis.max_drawdown * 100,
                trading_days: analysis.trading_days,
                expected_return: expected_return(analysis),
            },
            computed_values: values,
            notes: text,
        }
    }

    /// The lines of the playbook of the plan at the given rank.
    pub fn playbook_lines(&self, rank: usize) -> (lines: Vec<String>)
        requires
            0 <= self.position_sizing.risk_cap_percent <= 100 * SCALE,
            0 <= self.conviction.high_conviction <= SCALE,
            0 <= self.conviction.medium_conviction <= SCALE,
        ensures
            lines@.len() == if self.entry_rules.alternative@.len() == 0 {
                8int
            } else {
                9int
            },
            texts(lines@) == playbook_text(*self, rank),
    {
        let mut lines: Vec<String> = Vec::new();
        let mut line = "Rank: ".to_owned();
        push_natural(&mut line, rank as u128);
        lines.push(line);
        let mut line = "Entry (primary): ".to_owned();
        line.append(self.entry_rules.primary.as_str());
        lines.push(line);
        if !self.entry_rules.alternative.as_str().is_empty() {
            let mut line = "Alt entry: ".to_owned();
            line.append(self.entry_rules.alternative.as_str());
            lines.push(line);
        }
        let mut line = "Exit: ".to_owned();
        line.append(self.exit_rules.profit_taking.as_str());
        lines.push(line);
        let mut line = "Stop: ".to_owned();
        line.append(self.exit_rules.stop_loss.as_str());
        lines.push(line);
        let mut line = "Size: Full (3/3) or Half (2/3+RS). Cap single-name risk at ".to_owned();
        push_decimal(&mut line, self.position_sizing.risk_cap_percent * 100, 1);
        line.append("% of equity (position = ");
        push_decimal(&mut line, self.position_sizing.risk_cap_percent * 100, 1);
        line.append("% / R).");
        lines.push(line);
        let mut line = "Conviction: High (".to_owned();
        push_decimal(&mut line, self.conviction.high_conviction * 100, 0);
        line.append("%) on 3/3; Medium (");
        push_decimal(&mut line, self.conviction.medium_conviction * 100, 0);
        line.append("%) on 2/3+RS.");
        lines.push(line);
        let mut line = "Expected: ".to_owned();
        line.append(self.backtest_stats.expected_return.as_str());
        lines.push(line);
        let mut line = "Notes: ".to_owned();
        line.append(self.notes.as_str());
        lines.push(line);
        proof {
            assert(texts(lines@) =~= playbook_text(*self, rank));
        }
        lines
    }
}

/// The lines of the playbook of a plan: rank, entries, exit, stop, size,
/// conviction, expected return and notes. The line of the alternative entry
/// is left out where there is none.
pub open spec fn playbook_text(plan: TradePlan, rank: usize) -> Seq<Seq<char>> {
    seq!["Rank: "@ + natural_text(rank as nat), "Entry (primary): "@ + plan.entry_rules.primary@]
        + (if plan.entry_rules.alternative@.len() == 0 {
        Seq::empty()
    } else {
        seq!["Alt entry: "@ + plan.entry_rules.alternative@]
    }) + seq![
        "Exit: "@ + plan.exit_rules.profit_taking@,
        "Stop: "@ + plan.exit_rules.stop_loss@,
        "Size: Full (3/3) or Half (2/3+RS). Cap single-name risk at "@ + decimal_text(
            plan.position_sizing.risk_cap_percent * 100,
            1,
        ) + "% of equity (position = "@ + decimal_text(
            plan.position_sizing.risk_cap_percent * 100,
            1,
        ) + "% / R)."@,
        "Conviction: High ("@ + decimal_text(plan.conviction.high_conviction * 100, 0)
            + "%) on 3/3; Medium ("@ + decimal_text(plan.conviction.medium_conviction * 100, 0)
            + "%) on 2/3+RS."@,
        "Expected: "@ + plan.backtest_stats.expected_return@,
        "Notes: "@ + plan.notes@,
    ]
}

/// Number of plans in a set of playbooks.
pub const TOP_PLAYBOOKS: usize = 10;

/// `top` is the start of the ranking of the profitable analyses by total
/// return: all of it, or its first `TOP_PLAYBOOKS` entries.
pub open spec fn is_top_selection(top: Seq<usize>, analyses: Seq<StrategyAnalysis>) -> bool {
    exists|order: Seq<usize>| #[trigger]
        is_ranking(
            order,
            total_returns(analyses),
            profitable_flags(analyses),
            analyses.len() as int,
        ) && top == order.subrange(
            0,
            if order.len() <= TOP_PLAYBOOKS {
                order.len() as int
            } else {
                TOP_PLAYBOOKS as int
            },
        )
}

/// The positions of the analyses that get a playbook: the profitable ones
/// by descending total return, ten at most.
pub fn select_top_playbooks(analyses: &Vec<StrategyAnalysis>) -> (top: Vec<usize>)
    ensures
        is_top_selection(top@, analyses@),
        top.len() <= TOP_PLAYBOOKS,
{
    let mut order = rank_by_total_return(analyses);
    let ghost full = order@;
    if order.len() > TOP_PLAYBOOKS {
        order.truncate(TOP_PLAYBOOKS);
    }
    proof {
        assert(order@ =~= full.subrange(
            0,
            if full.len() <= TOP_PLAYBOOKS {
                full.len() as int
            } else {
                TOP_PLAYBOOKS as int
            },
        ));
    }
    order
}

} // verus!

use crypto_strategy::analyzer::{SignalRow, StrategyAnalysis};
use crypto_strategy::insights::{
    generate_fallback_insights, market_fallback_context, market_sentiment, notes_from_fallback,
    notes_from_insights, portfolio_fallback_analysis, AssetInsights, Sentiment,
};
use crypto_strategy::playbook::{
    entry_rules, exit_rules, expected_return, generate_asset_notes, risk_calculation,
    select_top_playbooks, TradePlan,
};
use crypto_strategy::report::{portfolio_book, size_position, summarize_profitable, PositionSize};
use crypto_strategy::signals::RS_SCALE;
use crypto_strategy::stats::ProfitFactor;
use crypto_strategy::trade::{ComputedValues, ExecutionMode};

const ONE: i128 = 100_000_000;

fn pct(p: i128) -> i128 {
    p * ONE / 100
}

fn row(close: i128, weight: i128) -> SignalRow {
    SignalRow {
        date: 0,
        close,
        ma_short: None,
        ma_long: None,
        rs: None,
        rs_ma_short: None,
        rs_ma_long: None,
        trend_bull: false,
        mom_bull: false,
        rs_bull: false,
        score: 0,
        raw_weight: weight,
        stop_level: None,
    }
}

fn stats(total_return: i128, sharpe: i128, win_rate: i128, max_drawdown: i128) -> StrategyAnalysis {
    StrategyAnalysis {
        asset: "COIN".to_string(),
        total_days: 30,
        trading_days: 12,
        total_return: total_return * ONE,
        max_return: 0,
        min_return: 0,
        win_rate,
        avg_win: 0,
        avg_loss: 0,
        profit_factor: ProfitFactor::Finite(pct(250)),
        max_drawdown,
        sharpe_ratio: sharpe,
        signals: vec![],
    }
}

fn rising(asset: &str, closes: &[i128]) -> StrategyAnalysis {
    let rows: Vec<SignalRow> = closes.iter().enumerate().map(|(i, c)| row(*c * ONE, if i == 0 { 0 } else { ONE })).collect();
    StrategyAnalysis::new(asset.to_string(), rows)
}

#[test]
fn notes_from_the_statistics() {
    assert_eq!(generate_asset_notes(&stats(pct(50), pct(100), pct(60), pct(3)), 1), "Standard execution with risk management");
    assert_eq!(
        generate_asset_notes(&stats(pct(1001), pct(401), pct(60), pct(6)), 1),
        "High-momentum outlier; widen slippage buffer and enforce risk caps; Best risk-adjusted name in the strategy set; Higher volatility; consider earlier partials to reduce giveback"
    );
    assert_eq!(generate_asset_notes(&stats(pct(1000), pct(400), pct(60), pct(5)), 1), "Standard execution with risk management");
    assert_eq!(generate_asset_notes(&stats(0, pct(401), pct(60), 0), 3), "Best risk-adjusted name in the strategy set");
}

#[test]
fn entry_rules_with_a_pullback() {
    let mode = ExecutionMode { signal_at_close: true, pullback_to_ma30: true, extended_threshold: pct(15), limit_order_duration_hours: 72 };
    let r = entry_rules(&mode);
    assert_eq!(r.primary, "Go long EOD when 3/3 signals (trend + momentum + RS). Alt entry: Limit buy at MA30 if price is extended (>15% above MA30) on signal day.");
    assert_eq!(r.alternative, "Staggered entry: 50% at signal close, 50% at MA30 limit if extended.");
    assert_eq!(r.signal_conditions.trend, "close > MA30");
    assert_eq!(r.signal_conditions.momentum, "MA7 > MA30");
    assert_eq!(r.signal_conditions.rs, "RS_MA7 > RS_MA30");
    assert_eq!(r.signal_conditions.full_weight_condition, "3/3 signals = 1.00 raw weight");
    assert_eq!(r.signal_conditions.half_weight_condition, ">=2/3 AND RS bullish = 0.50 raw weight");
}

#[test]
fn entry_rules_without_a_pullback() {
    let mode = ExecutionMode { signal_at_close: true, pullback_to_ma30: false, extended_threshold: pct(5), limit_order_duration_hours: 24 };
    let r = entry_rules(&mode);
    assert_eq!(r.primary, "Go long EOD when 3/3 signals (trend + momentum + RS). Use signal-at-close execution only.");
    assert_eq!(r.alternative, "Market-on-close entry preferred due to liquidity constraints.");
}

#[test]
fn exit_rules_in_words() {
    let r = exit_rules();
    assert_eq!(r.profit_taking, "Scale 50% at +2R (R = initial risk from entry to stop), then trail the rest");
    assert_eq!(r.stop_loss, "Initial stop: close - 3.0 x ATR14 (fallback: close x (1 - 2.5 x rolling_std14))");
    assert_eq!(r.trailing_stop, "Ratchet stop to max(prior stop, close - 3.0 x ATR14) each day");
    assert_eq!(r.hard_exit_conditions, "Hard exit if close < MA30 or RS flips bearish (RS_MA7 < RS_MA30)");
}

#[test]
fn expected_return_in_one_line() {
    let s = stats(pct(32), 212_345_678, pct(75), 4_560_000);
    assert_eq!(expected_return(&s), "+32.00%, Sharpe 2.12, Win 75.0%, MaxDD 4.56%, 12 days");
}

#[test]
fn risk_calculation_in_words() {
    let mut cv = ComputedValues::default();
    cv.risk_per_share = 6 * ONE;
    cv.max_shares_by_risk = Some(16_666_666_666);
    cv.max_shares_by_position = 16_666_666_666;
    cv.recommended_shares = 166;
    assert_eq!(
        risk_calculation(12 * ONE / 1000, &cv),
        "R = entry_price - stop_price; units = min(raw_weight_normalized x portfolio_value / entry_price, (1.2% x portfolio_value) / R) Risk per share: $6.00, Max shares by risk: 167, Max shares by position: 167, Recommended: 166"
    );
    cv.max_shares_by_risk = None;
    assert!(risk_calculation(pct(1), &cv).contains("(1.0% x portfolio_value)"));
    assert!(risk_calculation(pct(1), &cv).contains("Max shares by risk: inf,"));
}

#[test]
fn plan_from_an_analysis() {
    let closes: Vec<i128> = (0..20).map(|i| 100 + 2 * i).collect();
    let mut a = rising("SOL", &closes);
    let last = a.signals.len() - 1;
    a.signals[last].ma_long = Some(130 * ONE);
    a.signals[last].ma_short = Some(136 * ONE);
    a.signals[last].rs_ma_short = Some(RS_SCALE / 100 + RS_SCALE / 1000);
    a.signals[last].rs_ma_long = Some(RS_SCALE / 100);
    let plan = TradePlan::from_analysis(&a, 1, None, 100_000 * ONE, 2, None);
    assert_eq!(plan.asset, "SOL");
    assert_eq!(plan.position_sizing.full_weight, ONE);
    assert_eq!(plan.position_sizing.half_weight, ONE / 2);
    let cap = plan.position_sizing.risk_cap_percent / 100;
    assert!(2 * ONE / 1000 <= cap && cap <= 25 * ONE / 1000);
    assert_eq!(plan.backtest_stats.total_return_percent, a.total_return * 100);
    assert_eq!(plan.backtest_stats.sharpe_ratio, a.sharpe_ratio);
    assert_eq!(plan.backtest_stats.win_rate_percent, 100 * ONE);
    assert_eq!(plan.backtest_stats.max_drawdown_percent, 0);
    assert_eq!(plan.backtest_stats.trading_days, 19);
    let cv = plan.computed_values;
    assert_eq!(cv.current_price, 138 * ONE);
    assert_eq!(cv.atr_14, 2 * ONE);
    assert_eq!(cv.risk_per_share, 6 * ONE);
    assert_eq!(cv.stop_price, 132 * ONE);
    assert_eq!(cv.profit_target, 150 * ONE);
    assert!(cv.all_signals);
    // budget over risk per share
    assert_eq!(cv.recommended_shares as i128, 100_000 * cap / (6 * ONE));
    assert_eq!(cv.remaining_shares + cv.scale_out_shares, cv.recommended_shares);
    assert_eq!(plan.conviction.high_conviction - plan.conviction.medium_conviction, pct(15));
    assert!(plan.backtest_stats.expected_return.starts_with("+"));
    assert!(plan.backtest_stats.expected_return.ends_with(", 19 days"));
    assert!(plan.position_sizing.risk_calculation.contains("Risk per share: $6.00"));
    assert_eq!(plan.notes, generate_asset_notes(&a, 1));
    let lines = plan.playbook_lines(3);
    assert_eq!(lines.len(), 9);
    assert_eq!(lines[0], "Rank: 3");
    assert_eq!(lines[1], format!("Entry (primary): {}", plan.entry_rules.primary));
    assert_eq!(lines[2], format!("Alt entry: {}", plan.entry_rules.alternative));
    assert_eq!(lines[3], "Exit: Scale 50% at +2R (R = initial risk from entry to stop), then trail the rest");
    assert_eq!(lines[4], "Stop: Initial stop: close - 3.0 x ATR14 (fallback: close x (1 - 2.5 x rolling_std14))");
    assert!(lines[5].starts_with("Size: Full (3/3) or Half (2/3+RS). Cap single-name risk at "));
    assert!(lines[6].starts_with("Conviction: High ("));
    assert_eq!(lines[7], format!("Expected: {}", plan.backtest_stats.expected_return));
    assert_eq!(lines[8], format!("Notes: {}", plan.notes));
}

#[test]
fn plan_carries_the_notes_handed_in() {
    let a = rising("ADA", &[100, 110]);
    let plan = TradePlan::from_analysis(&a, 2, Some(pct(40)), 50_000 * ONE, 2, Some("from outside".to_string()));
    assert_eq!(plan.notes, "from outside");
    assert_eq!(plan.computed_values.volatility, Some(pct(40)));
}

#[test]
fn playbook_lines_of_fixed_numbers() {
    let a = rising("ADA", &[100, 110]);
    let mut plan = TradePlan::from_analysis(&a, 2, None, 50_000 * ONE, 2, None);
    plan.position_sizing.risk_cap_percent = pct(120);
    plan.conviction.high_conviction = pct(85);
    plan.conviction.medium_conviction = pct(70);
    plan.entry_rules.alternative = String::new();
    let lines = plan.playbook_lines(10);
    assert_eq!(lines.len(), 8);
    assert_eq!(lines[0], "Rank: 10");
    assert_eq!(lines[4], "Size: Full (3/3) or Half (2/3+RS). Cap single-name risk at 120.0% of equity (position = 120.0% / R).");
    assert_eq!(lines[5], "Conviction: High (85%) on 3/3; Medium (70%) on 2/3+RS.");
}

#[test]
fn top_playbooks_are_the_ten_best_profitable_strategies() {
    let mut all = vec![];
    for i in 0..14 {
        all.push(rising("A", &[100, 100 + (i % 7) as i128 + 1]));
    }
    all.push(rising("L", &[100, 90]));
    let top = select_top_playbooks(&all);
    // returns 1%..7% twice: the best ten, equal returns in input order
    assert_eq!(top, vec![6, 13, 5, 12, 4, 11, 3, 10, 2, 9]);
    assert_eq!(select_top_playbooks(&vec![]), Vec::<usize>::new());
    let few = vec![rising("A", &[100, 101]), rising("L", &[100, 90]), rising("B", &[100, 105])];
    assert_eq!(select_top_playbooks(&few), vec![2, 0]);
}

#[test]
fn fallback_insights_by_thresholds() {
    let i = generate_fallback_insights("SOL", 1001 * ONE * ONE, 3 * ONE, 81 * ONE, 21 * ONE);
    assert_eq!(i.asset, "SOL");
    assert_eq!(
        i.trading_notes,
        vec![
            "Exceptional momentum - consider scaling in gradually to manage volatility risk",
            "Excellent risk-adjusted returns - increase position size",
            "High win rate suggests strong signal quality",
            "High drawdown risk - implement strict stop losses",
        ]
    );
    assert_eq!(i.risk_assessment, "High return potential but extreme volatility risk");
    assert_eq!(i.execution_recommendations, vec!["Consider larger position size due to high Sharpe ratio", "Use tighter stop losses to manage drawdown risk"]);
    assert_eq!(i.market_context, "Market analysis unavailable - using fallback metrics");
}

#[test]
fn fallback_insights_of_modest_metrics() {
    let i = generate_fallback_insights("X", 10 * ONE * ONE, ONE, 49 * ONE, 20 * ONE);
    assert_eq!(
        i.trading_notes,
        vec![
            "Conservative performance - consider for risk management",
            "Lower risk-adjusted returns - consider reducing position size",
            "Low win rate - review entry criteria and market conditions",
        ]
    );
    assert_eq!(i.risk_assessment, "Low risk, modest returns");
    assert_eq!(i.execution_recommendations, vec!["Consider smaller position size due to lower Sharpe ratio"]);
    let i = generate_fallback_insights("X", 101 * ONE * ONE, 3 * ONE / 2, 60 * ONE, 0);
    assert_eq!(i.trading_notes, vec!["Strong momentum trend - monitor for continuation signals", "Good risk-adjusted performance - maintain current sizing"]);
    assert_eq!(i.risk_assessment, "High return with moderate volatility");
    assert_eq!(i.execution_recommendations, vec!["Standard position sizing appropriate"]);
    let i = generate_fallback_insights("X", 11 * ONE * ONE, 0, 60 * ONE, 0);
    assert_eq!(i.trading_notes[0], "Solid performance - suitable for core portfolio allocation");
    assert_eq!(i.risk_assessment, "Moderate risk with good return potential");
}

#[test]
fn notes_made_from_insights() {
    let i = AssetInsights {
        asset: "X".to_string(),
        trading_notes: vec!["n1".to_string(), "n2".to_string()],
        risk_assessment: "r".to_string(),
        execution_recommendations: vec!["e1".to_string()],
        market_context: "c".to_string(),
    };
    assert_eq!(notes_from_insights(&i), "n1; n2; Risk: r; e1; Context: c");
    assert_eq!(notes_from_fallback(&i), "n1; n2; Risk: r; Recommendations: e1");
    let empty = AssetInsights { asset: String::new(), trading_notes: vec![], risk_assessment: String::new(), execution_recommendations: vec![], market_context: String::new() };
    assert_eq!(notes_from_insights(&empty), "Risk: ; Context: ");
    assert_eq!(notes_from_fallback(&empty), "; Risk: ; Recommendations: ");
}

#[test]
fn market_sentiment_by_the_change_of_a_day() {
    assert_eq!(market_sentiment(5 * ONE + 1), Sentiment::Bullish);
    assert_eq!(market_sentiment(5 * ONE), Sentiment::Neutral);
    assert_eq!(market_sentiment(-5 * ONE), Sentiment::Neutral);
    assert_eq!(market_sentiment(-5 * ONE - 1), Sentiment::Bearish);
    assert_eq!(Sentiment::Bullish.as_str(), "bullish");
    assert_eq!(Sentiment::Bearish.as_str(), "bearish");
    assert_eq!(Sentiment::Neutral.as_str(), "neutral");
}

#[test]
fn market_context_in_words() {
    assert_eq!(
        market_fallback_context(6_543_210 * ONE / 100, 3_500 * ONE, -6 * ONE, Some(25)),
        "Market Context: BTC at $65432.10, ETH at $3500.00, 24h change: -6.00%. Market sentiment appears bearish. Fear & Greed Index: 25. Momentum strategies may benefit from current market structure."
    );
    assert!(market_fallback_context(ONE, ONE, 0, None).contains("Market sentiment appears neutral. Fear & Greed Index: N/A."));
}

#[test]
fn portfolio_analysis_in_words() {
    assert_eq!(
        portfolio_fallback_analysis(8, 3, 1_234 * ONE / 100, 156 * ONE / 100, 6_250 * ONE / 100, "risk-on"),
        "Portfolio Analysis: 3 profitable strategies out of 8 total (37.5% success rate). Average return: 12.3%, Average Sharpe: 1.56, Average win rate: 62.5%. Market conditions: risk-on. Top performers show strong momentum characteristics."
    );
    assert!(portfolio_fallback_analysis(0, 0, 0, 0, 0, "").contains("0 total (NaN% success rate)"));
}

#[test]
fn summary_of_the_profitable_strategies() {
    let all = vec![rising("A", &[100, 110]), rising("L", &[100, 90]), rising("B", &[100, 120, 144]), rising("N", &[100])];
    let s = summarize_profitable(&all).unwrap();
    assert_eq!(s.total, 4);
    assert_eq!(s.profitable, 2);
    assert_eq!(s.profitable_percent, 50 * ONE);
    // 10% and 1.2 * 1.44 - 1 = 72.8%
    assert_eq!(s.avg_return, (pct(10) + 72_800_000) * ONE / 2);
    assert_eq!(s.avg_win_rate, ONE);
    assert_eq!(s.avg_sharpe, (all[0].sharpe_ratio + all[2].sharpe_ratio) / 2);
    assert_eq!(summarize_profitable(&vec![rising("L", &[100, 90])]), None);
    assert_eq!(summarize_profitable(&vec![]), None);
}

#[test]
fn size_of_a_position() {
    let mut cv = ComputedValues::default();
    cv.current_price = 100 * ONE;
    cv.risk_per_share = 6 * ONE;
    // 1% of 100000 at 6 per share
    let p = size_position(&cv, 100_000 * ONE, ONE).unwrap();
    assert_eq!(p, PositionSize { shares: 166, value: 16_600 * ONE, risk: 996 * ONE, percent_of_portfolio: 1_660_000_000, risk_percent: 99_600_000 });
    cv.risk_per_share = 0;
    assert_eq!(size_position(&cv, 100_000 * ONE, ONE), None);
    cv.risk_per_share = ONE;
    cv.current_price = 0;
    assert_eq!(size_position(&cv, 100_000 * ONE, ONE), None);
}

#[test]
fn book_of_a_portfolio() {
    let a = rising("A", &[100, 110]);
    let mut one = TradePlan::from_analysis(&a, 1, None, 100_000 * ONE, 2, None);
    one.computed_values.all_signals = true;
    one.computed_values.current_price = 100 * ONE;
    one.computed_values.risk_per_share = 6 * ONE;
    let mut two = one.clone();
    two.computed_values.all_signals = false;
    let mut three = one.clone();
    three.computed_values.current_price = 10 * ONE;
    three.computed_values.risk_per_share = ONE;
    let book = portfolio_book(&vec![one.clone(), two, three], 100_000 * ONE, ONE).unwrap();
    assert_eq!(book.positions.len(), 2);
    assert_eq!(book.positions[0].0, 0);
    assert_eq!(book.positions[0].1.shares, 166);
    assert_eq!(book.positions[1].0, 2);
    assert_eq!(book.positions[1].1.shares, 1000);
    assert_eq!(book.total_position_value, 26_600 * ONE);
    assert_eq!(book.total_risk, 1_996 * ONE);
    assert_eq!(book.portfolio_utilization, 2_660_000_000);
    assert_eq!(book.total_risk_percent, 199_600_000);
    let mut broken = one.clone();
    broken.computed_values.risk_per_share = 0;
    assert!(portfolio_book(&vec![one.clone(), broken], 100_000 * ONE, ONE).is_none());
    assert!(portfolio_book(&vec![one.clone(); 21], 100_000 * ONE, ONE).is_none());
    let none = portfolio_book(&vec![], 100_000 * ONE, ONE).unwrap();
    assert_eq!((none.positions.len(), none.total_position_value, none.total_risk), (0, 0, 0));
}

#[test]
fn metrics_of_a_plan() {
    let closes: Vec<i128> = (0..20).map(|i| 100 + 2 * i).collect();
    let a = rising("SOL", &closes);
    let values = TradePlan::values_for(&a, Some(pct(40)), 100_000 * ONE, 2);
    let plan = TradePlan::from_analysis(&a, 1, Some(pct(40)), 100_000 * ONE, 2, None);
    assert_eq!(values, plan.computed_values);
    let m = crypto_strategy::playbook::plan_metrics(&a, &values);
    assert_eq!(m.asset, "SOL");
    assert_eq!(m.total_return, a.total_return);
    assert_eq!(m.win_rate, 100 * ONE);
    assert_eq!(m.max_drawdown, 0);
    assert_eq!(m.trading_days, 19);
    assert_eq!(m.current_price, 138 * ONE);
    assert_eq!(m.atr_14, 2 * ONE);
    assert_eq!(m.volatility, Some(pct(40)));
}

#[test]
fn notes_derived_from_the_metrics_alone() {
    let a = rising("X", &[100, 110]);
    let values = TradePlan::values_for(&a, None, 100_000 * ONE, 2);
    let mut m = crypto_strategy::playbook::plan_metrics(&a, &values);
    m.total_return = 11 * ONE * ONE;
    m.sharpe_ratio = 3 * ONE;
    m.win_rate = 45 * ONE;
    m.max_drawdown = 25 * ONE;
    assert_eq!(
        crypto_strategy::insights::summarize_offline(&m),
        "Solid performance - suitable for core portfolio allocation; Excellent risk-adjusted returns - increase position size; Low win rate - review entry criteria and market conditions; High drawdown risk - implement strict stop losses; Risk: Moderate risk with good return potential; Recommendations: Consider larger position size due to high Sharpe ratio; Use tighter stop losses to manage drawdown risk"
    );
}

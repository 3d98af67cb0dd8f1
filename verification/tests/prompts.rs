use crypto_strategy::insights::AssetMetrics;
use crypto_strategy::prompts::{asset_prompt, market_prompt, portfolio_prompt, top_performers_line};
use crypto_strategy::stats::ProfitFactor;

const ONE: i128 = 100_000_000;
const RS_ONE: i128 = 10_000_000_000_000_000;

fn metrics() -> AssetMetrics {
    AssetMetrics {
        asset: "SOL".to_string(),
        total_return: 32 * RS_ONE / 100,
        sharpe_ratio: 212_345_678,
        win_rate: 75 * ONE,
        max_drawdown: 456 * ONE / 100,
        trading_days: 19,
        profit_factor: ProfitFactor::Finite(5 * ONE / 2),
        current_price: 138 * ONE,
        ma30: 130 * ONE,
        ma7: 136 * ONE,
        rs_ma7: RS_ONE / 8,
        rs_ma30: RS_ONE / 10,
        atr_14: 2 * ONE,
        volatility: Some(40 * ONE / 100),
    }
}

#[test]
fn question_about_an_asset() {
    let p = asset_prompt(&metrics()).unwrap();
    assert!(p.starts_with("You are a quantitative trading analyst specializing in cryptocurrency momentum strategies."));
    assert!(p.contains("\n\nASSET: SOL\nPERFORMANCE METRICS:\n- Total Return: 0.32%\n- Sharpe Ratio: 2.12\n- Win Rate: 75.0%\n- Max Drawdown: 4.56%\n- Trading Days: 19\n- Profit Factor: 2.50\n\nCURRENT MARKET DATA:\n- Current Price: $138.00\n- MA30: $130.00\n- MA7: $136.00\n- RS vs BTC (MA7): 0.13\n- RS vs BTC (MA30): 0.10\n- ATR(14): $2.00\n- Volatility: 0.40%\n\nPlease provide:\n"));
    assert!(p.ends_with("{\n  \"trading_notes\": [\"note1\", \"note2\", \"note3\"],\n  \"risk_assessment\": \"brief risk summary\",\n  \"execution_recommendations\": [\"rec1\", \"rec2\"],\n  \"market_context\": \"market outlook\"\n}"));
}

#[test]
fn question_about_an_asset_without_losses_or_volatility() {
    let mut m = metrics();
    m.profit_factor = ProfitFactor::Infinite;
    m.volatility = None;
    let p = asset_prompt(&m).unwrap();
    assert!(p.contains("- Profit Factor: inf\n"));
    assert!(p.contains("- Volatility: NaN%\n"));
}

#[test]
fn question_about_an_asset_needs_numbers_that_can_be_written() {
    let mut m = metrics();
    m.current_price = 1_000_000_000_000_000_000_000_000_001;
    assert!(asset_prompt(&m).is_none());
    let mut m = metrics();
    m.rs_ma7 = i128::MAX;
    assert!(asset_prompt(&m).is_none());
}

#[test]
fn five_performers_are_named() {
    let top: Vec<(String, i128)> = (1..8).map(|i| (format!("C{}", i), i as i128 * 1_050_000_000)).collect();
    assert_eq!(top_performers_line(&top).unwrap(), "C1: 10.5%, C2: 21.0%, C3: 31.5%, C4: 42.0%, C5: 52.5%");
    assert_eq!(top_performers_line(&top[..2].to_vec()).unwrap(), "C1: 10.5%, C2: 21.0%");
    assert_eq!(top_performers_line(&vec![]).unwrap(), "");
    let mut wild = top.clone();
    wild[5].1 = i128::MAX;
    assert!(top_performers_line(&wild).is_some());
    wild[4].1 = i128::MAX;
    assert!(top_performers_line(&wild).is_none());
}

#[test]
fn question_about_the_portfolio() {
    let p = portfolio_prompt(8, 3, 1_234 * ONE / 100, 156 * ONE / 100, 6_250 * ONE / 100, "A: 1.0%", "risk-on");
    assert!(p.starts_with("You are a quantitative portfolio manager specializing in cryptocurrency momentum strategies."));
    assert!(p.contains("\n\nPORTFOLIO METRICS:\n- Total Strategies: 8\n- Profitable Strategies: 3 (37.5%)\n- Average Return (Profitable): 12.3%\n- Average Sharpe Ratio: 1.56\n- Average Win Rate: 62.5%\n\nTOP PERFORMERS: A: 1.0%\n\nMARKET CONDITIONS: risk-on\n\nProvide a 2-3 paragraph analysis covering:\n"));
    assert!(p.ends_with("Be specific and actionable for a quantitative trader."));
    assert!(portfolio_prompt(0, 0, 0, 0, 0, "", "").contains("- Profitable Strategies: 0 (NaN%)\n"));
}

#[test]
fn question_about_the_market() {
    let p = market_prompt(6_543_210 * ONE / 100, 3_500 * ONE, -6 * ONE, Some(25));
    assert!(p.starts_with("You are a crypto market analyst."));
    assert!(p.contains("\n\nCURRENT MARKET DATA:\n- BTC Price: $65432.10\n- ETH Price: $3500.00\n- Market Cap Change (24h): -6.00%\n- Fear & Greed Index: 25\n\nProvide a 1-2 sentence market context focusing on:\n"));
    assert!(p.ends_with("Be concise and actionable for traders."));
    assert!(market_prompt(ONE, ONE, 0, None).contains("\n- Fear & Greed Index: Not available\n"));
}

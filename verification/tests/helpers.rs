use crypto_strategy::analyzer::{trading_history, SignalRow};
use crypto_strategy::completion::trim_bounds;
use crypto_strategy::export::{
    bool_string, decimal_string, is_opt_writable, is_writable, natural_string, optional_string,
    to_ratio,
};
use crypto_strategy::fixed::{
    clamp_to, compound_of, fine_mul, fine_ratio_of, isqrt_unsigned, to_coarse, EQUITY_LIMIT,
};
use crypto_strategy::indicators::distance;
use crypto_strategy::insights::push_success_rate;
use crypto_strategy::names::same_run;
use crypto_strategy::ohlc::{copy_coin, knows, MarketCoin};
use crypto_strategy::series::{in_range, opt_in_range};
use crypto_strategy::signals::{is_above, is_below};
use crypto_strategy::stats::ProfitFactor;
use crypto_strategy::text::{digit_str, fine_string, power_of_ten, push_fine};
use crypto_strategy::trade::{
    is_factor_at_least, shares_by_position_of, shares_by_risk_of, whole_shares,
};

const ONE: i128 = 100_000_000;
const FINE: i128 = 10_000_000_000_000_000;

fn row(close: i128, raw_weight: i128) -> SignalRow {
    SignalRow {
        date: 0,
        close,
        ma_short: None,
        ma_long: None,
        rs: None,
        rs_ma_short: None,
        rs_ma_long: None,
        trend_bull: false,
        mom_bull: false,
        rs_bull: false,
        score: 0,
        raw_weight,
        stop_level: None,
    }
}

#[test]
fn returns_and_cumulative_path_of_the_trading_days() {
    let rows = vec![row(100 * ONE, 0), row(110 * ONE, ONE), row(120 * ONE, 0), row(90 * ONE, ONE / 2)];
    let (rets, ratios, path) = trading_history(&rows);
    // 1.0 * 10% and 0.5 * -10%
    assert_eq!(rets, vec![FINE / 10, -FINE / 20]);
    assert_eq!(ratios, vec![ONE / 10, -ONE / 20]);
    assert_eq!(path, vec![110 * FINE / 100, 1045 * FINE / 1000]);
    assert_eq!(trading_history(&vec![]), (vec![], vec![], vec![]));
}

#[test]
fn bounds_of_the_text_without_white_space() {
    assert_eq!(trim_bounds("  ab \n"), (2, 4));
    assert_eq!(trim_bounds("ab"), (0, 2));
    assert_eq!(trim_bounds("   "), (3, 0));
    assert_eq!(trim_bounds(""), (0, 0));
}

#[test]
fn fields_of_records() {
    assert_eq!(decimal_string(-5 * ONE / 4, 2), "-1.25");
    assert_eq!(optional_string(Some(ONE), 1), "1.0");
    assert_eq!(optional_string(None, 1), "");
    assert_eq!(natural_string(0), "0");
    assert_eq!(natural_string(4096), "4096");
    assert_eq!(bool_string(true), "true");
    assert_eq!(bool_string(false), "false");
    assert_eq!(to_ratio(Some(12_345_678_912_345_678)), Some(123_456_789));
    assert_eq!(to_ratio(Some(-1)), Some(-1));
    assert_eq!(to_ratio(None), None);
    assert!(is_writable(1_000_000_000_000_000_000_000_000_000));
    assert!(!is_writable(-1_000_000_000_000_000_000_000_000_001));
    assert!(is_opt_writable(None));
    assert!(!is_opt_writable(Some(i128::MAX)));
}

#[test]
fn clamping_and_roots() {
    assert_eq!(clamp_to(5, 0, 3), 3);
    assert_eq!(clamp_to(-5, 0, 3), 0);
    assert_eq!(clamp_to(2, 0, 3), 2);
    assert_eq!(isqrt_unsigned(0), 0);
    assert_eq!(isqrt_unsigned(99), 9);
    assert_eq!(isqrt_unsigned(100), 10);
    assert_eq!(isqrt_unsigned(u128::MAX), u64::MAX as u128);
    assert_eq!(distance(3, 10), 7);
    assert_eq!(distance(10, 3), 7);
    assert_eq!(distance(-4, 4), 8);
}

#[test]
fn share_of_profitable_strategies_as_text() {
    let mut s = String::from("(");
    push_success_rate(&mut s, 3, 1);
    assert_eq!(s, "(33.3");
    let mut s = String::new();
    push_success_rate(&mut s, 0, 0);
    assert_eq!(s, "NaN");
    let mut s = String::new();
    push_success_rate(&mut s, 4, 4);
    assert_eq!(s, "100.0");
}

#[test]
fn runs_of_characters_are_compared() {
    assert!(same_run("abcdef", 2, "cdx", 2));
    assert!(!same_run("abcdef", 2, "cdx", 3));
    assert!(same_run("abc", 3, "", 0));
    assert!(same_run("h\u{e9}llo", 1, "\u{e9}l", 2));
}

#[test]
fn coins_are_known_by_their_id() {
    let c = MarketCoin { id: "solana".to_string(), symbol: "sol".to_string(), name: "Solana".to_string(), market_cap_rank: Some(5) };
    let d = copy_coin(&c);
    assert_eq!((d.id.as_str(), d.symbol.as_str(), d.name.as_str(), d.market_cap_rank), ("solana", "sol", "Solana", Some(5)));
    assert!(knows(&vec![c.clone()], &"solana".to_string()));
    assert!(!knows(&vec![c], &"Solana".to_string()));
    assert!(!knows(&vec![], &"solana".to_string()));
}

#[test]
fn prices_in_range() {
    assert!(in_range(1));
    assert!(in_range(1_000_000_000_000_000_000));
    assert!(!in_range(0));
    assert!(!in_range(1_000_000_000_000_000_001));
    assert!(opt_in_range(None));
    assert!(opt_in_range(Some(5)));
    assert!(!opt_in_range(Some(-5)));
}

#[test]
fn comparisons_of_values_that_may_be_undefined() {
    assert!(is_above(Some(2), Some(1)));
    assert!(!is_above(Some(1), Some(1)));
    assert!(!is_above(None, Some(1)));
    assert!(!is_above(Some(1), None));
    assert!(is_below(Some(1), Some(2)));
    assert!(!is_below(Some(2), Some(2)));
    assert!(!is_below(None, None));
}

#[test]
fn digits_and_powers_of_ten() {
    assert_eq!(digit_str(0), "0");
    assert_eq!(digit_str(9), "9");
    assert_eq!((0..10).map(digit_str).collect::<String>(), "0123456789");
    assert_eq!(power_of_ten(0), 1);
    assert_eq!(power_of_ten(3), 1000);
    assert_eq!(power_of_ten(8), 100_000_000);
}

#[test]
fn profit_factors_against_a_bound() {
    assert!(is_factor_at_least(ProfitFactor::Infinite, i128::MAX));
    assert!(is_factor_at_least(ProfitFactor::Finite(3 * ONE), 3 * ONE));
    assert!(!is_factor_at_least(ProfitFactor::Finite(3 * ONE - 1), 3 * ONE));
}

#[test]
fn bounds_on_the_number_of_shares() {
    // a budget of 1000 at a risk of 6 per share
    assert_eq!(shares_by_risk_of(100_000 * ONE, 6 * ONE, ONE / 100), Some(16_666_666_666));
    assert_eq!(shares_by_risk_of(100_000 * ONE, 0, ONE / 100), None);
    // 6% at risk: the budget over the risk per share
    assert_eq!(shares_by_position_of(100_000 * ONE, 6 * ONE, 100 * ONE, ONE / 100), 16_666_666_666);
    // 0.5% at risk counts as 1%: the whole portfolio at a cap of 1%
    assert_eq!(shares_by_position_of(100_000 * ONE, ONE / 2, 100 * ONE, ONE / 100), 1000 * ONE);
    // 0.5% at risk and a cap of 0.5%: half of the portfolio
    assert_eq!(shares_by_position_of(100_000 * ONE, ONE / 2, 100 * ONE, ONE / 200), 500 * ONE);
    // 1% at risk and a cap of 2%: the whole portfolio
    assert_eq!(shares_by_position_of(100_000 * ONE, ONE, 100 * ONE, ONE / 50), 1000 * ONE);
    assert_eq!(whole_shares(Some(16_666_666_666), 20_000_000_000), 166);
    assert_eq!(whole_shares(Some(30_000_000_000), 20_000_000_000), 200);
    assert_eq!(whole_shares(None, 99_999_999), 0);
}

#[test]
fn fine_ratios_round_down_and_saturate() {
    assert_eq!(fine_ratio_of(1, 3), 3_333_333_333_333_333);
    assert_eq!(fine_ratio_of(-1, 3), -3_333_333_333_333_334);
    assert_eq!(fine_ratio_of(2, 1), 2 * FINE);
    assert_eq!(fine_ratio_of(0, 7), 0);
    assert_eq!(fine_ratio_of(9_999_999, 1), 9_999_999 * FINE);
    assert_eq!(fine_ratio_of(1_000_000_000, 1), 10_000_000 * FINE);
    assert_eq!(fine_ratio_of(-1_000_000_000, 1), -10_000_000 * FINE);
}

#[test]
fn fine_values_as_ratios_round_down() {
    assert_eq!(to_coarse(FINE), ONE);
    assert_eq!(to_coarse(199_999_999), 1);
    assert_eq!(to_coarse(99_999_999), 0);
    assert_eq!(to_coarse(-1), -1);
    assert_eq!(to_coarse(-100_000_000), -1);
    assert_eq!(to_coarse(-100_000_001), -2);
}

#[test]
fn products_of_fine_values_round_down() {
    assert_eq!(fine_mul(FINE, FINE), FINE);
    assert_eq!(fine_mul(3 * FINE / 2, -FINE / 2), -3 * FINE / 4);
    assert_eq!(fine_mul(1, 1), 0);
    assert_eq!(fine_mul(-1, 1), -1);
    assert_eq!(fine_mul(7, 0), 0);
    assert_eq!(fine_mul(EQUITY_LIMIT, EQUITY_LIMIT), 10_000_000_000 * EQUITY_LIMIT);
    assert_eq!(fine_mul(-EQUITY_LIMIT, EQUITY_LIMIT), -10_000_000_000 * EQUITY_LIMIT);
    assert_eq!(fine_mul(12_345_678_901_234_567, 98_765_432_109_876_543), 121_932_631_137_021_786);
}

#[test]
fn one_step_of_compounding() {
    assert_eq!(compound_of(FINE, FINE / 10), 11 * FINE / 10);
    assert_eq!(compound_of(FINE, 0), FINE);
    assert_eq!(compound_of(FINE, -FINE), 0);
    assert_eq!(compound_of(FINE, -2 * FINE), -FINE);
    assert_eq!(compound_of(3, FINE / 2), 4);
    assert_eq!(compound_of(3, -FINE / 2), 1);
    assert_eq!(compound_of(EQUITY_LIMIT, FINE), EQUITY_LIMIT);
    assert_eq!(compound_of(-EQUITY_LIMIT, FINE), -EQUITY_LIMIT);
    assert_eq!(compound_of(0, 10_000_000 * FINE), 0);
}

#[test]
fn fine_values_are_rounded_once_when_written() {
    assert_eq!(fine_string(FINE, 2), "1.00");
    assert_eq!(fine_string(-FINE / 3, 4), "-0.3333");
    assert_eq!(fine_string(15 * FINE / 1000, 2), "0.02");
    assert_eq!(fine_string(-15 * FINE / 1000, 2), "-0.02");
    assert_eq!(fine_string(FINE / 2, 0), "1");
    assert_eq!(fine_string(FINE / 2 - 1, 0), "0");
    assert_eq!(fine_string(12_345_678_949_999_999, 8), "1.23456789");
    assert_eq!(fine_string(12_345_678_950_000_000, 8), "1.23456790");
    // 0.12499999995 is 0.12 to two places, though 0.1250000000 to ten
    assert_eq!(fine_string(1_249_999_999_500_000, 2), "0.12");
    assert_eq!(fine_string(0, 3), "0.000");
    let mut t = "x=".to_string();
    push_fine(&mut t, 15_892_857_142_857_142, 8);
    assert_eq!(t, "x=1.58928571");
}

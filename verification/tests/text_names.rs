use crypto_strategy::completion::{
    after_completion, extract_json_block, find_last_fence, is_whitespace, narrative_or, trim,
    Completion, InsightStep,
};
use crypto_strategy::insights::{
    generate_asset_insights, generate_fallback_insights, generate_market_context,
    generate_portfolio_insights, market_fallback_context, portfolio_fallback_analysis,
    AssetInsights, AssetMetrics,
};
use crypto_strategy::names::{
    asset_of_signals_file, coin_file_name, ends_with, has_csv_extension, is_daemon_asset,
    is_price_table, signals_file_name, starts_with,
};
use crypto_strategy::stats::ProfitFactor;
use crypto_strategy::text::{integer_string, join_strings, push_decimal, push_integer, push_natural, push_padded};

const ONE: i128 = 100_000_000;

fn decimal(value: i128, places: u8) -> String {
    let mut s = String::new();
    push_decimal(&mut s, value, places);
    s
}

fn natural(n: u128) -> String {
    let mut s = String::new();
    push_natural(&mut s, n);
    s
}

#[test]
fn natural_numbers_as_text() {
    assert_eq!(natural(0), "0");
    assert_eq!(natural(7), "7");
    assert_eq!(natural(10), "10");
    assert_eq!(natural(1234567890), "1234567890");
    assert_eq!(natural(u128::MAX), "340282366920938463463374607431768211455");
}

#[test]
fn padded_numbers_keep_their_width() {
    let mut s = String::from("x");
    push_padded(&mut s, 42, 5);
    assert_eq!(s, "x00042");
    let mut s = String::new();
    push_padded(&mut s, 123456, 3);
    assert_eq!(s, "456");
    let mut s = String::new();
    push_padded(&mut s, 9, 0);
    assert_eq!(s, "");
}

#[test]
fn integers_as_text() {
    assert_eq!(integer_string(0), "0");
    assert_eq!(integer_string(-1), "-1");
    assert_eq!(integer_string(1756684800), "1756684800");
    assert_eq!(integer_string(i64::MIN), "-9223372036854775808");
    let mut s = String::from("a=");
    push_integer(&mut s, -35);
    assert_eq!(s, "a=-35");
}

#[test]
fn decimals_round_half_away_from_zero() {
    assert_eq!(decimal(ONE, 2), "1.00");
    assert_eq!(decimal(123_456_789, 2), "1.23");
    assert_eq!(decimal(123_500_000, 2), "1.24");
    assert_eq!(decimal(123_499_999, 2), "1.23");
    assert_eq!(decimal(-123_500_000, 2), "-1.24");
    assert_eq!(decimal(50_000_000, 0), "1");
    assert_eq!(decimal(49_999_999, 0), "0");
    assert_eq!(decimal(ONE / 3, 8), "0.33333333");
    assert_eq!(decimal(5, 8), "0.00000005");
    assert_eq!(decimal(-1, 2), "-0.00");
    assert_eq!(decimal(0, 1), "0.0");
    assert_eq!(decimal(99_950_000, 1), "1.0");
    assert_eq!(decimal(999_950_000, 1), "10.0");
    assert_eq!(decimal(12_345 * ONE, 0), "12345");
}

#[test]
fn strings_are_joined_with_a_separator() {
    assert_eq!(join_strings(&vec![], "; "), "");
    assert_eq!(join_strings(&vec!["a".to_string()], "; "), "a");
    assert_eq!(join_strings(&vec!["a".to_string(), "".to_string(), "c".to_string()], "; "), "a; ; c");
}

#[test]
fn prefixes_and_suffixes() {
    assert!(starts_with("signals_BTC.csv", "signals_"));
    assert!(!starts_with("signal", "signals_"));
    assert!(starts_with("abc", ""));
    assert!(starts_with("abc", "abc"));
    assert!(!starts_with("abc", "abd"));
    assert!(ends_with("a.csv", ".csv"));
    assert!(!ends_with("a.csvx", ".csv"));
    assert!(!ends_with("sv", ".csv"));
    assert!(ends_with("abc", ""));
    assert!(ends_with("\u{e9}t\u{e9}.csv", ".csv"));
}

#[test]
fn price_tables_are_csv_files_that_are_no_results() {
    assert!(is_price_table("BTC.csv"));
    assert!(is_price_table("ETH_ethereum.csv"));
    assert!(!is_price_table("signals_ETH.csv"));
    assert!(!is_price_table("equity_curve.csv"));
    assert!(is_price_table("equity_curve2.csv"));
    assert!(is_price_table("xequity_curve.csv"));
    assert!(!is_price_table("metrics.txt"));
    assert!(!is_price_table(".csv"));
    assert!(!is_price_table("BTC.CSV"));
    assert!(has_csv_extension("a.csv"));
    assert!(!has_csv_extension(".csv"));
    assert!(!has_csv_extension("csv"));
}

#[test]
fn daemon_assets_leave_out_the_baseline_wrappers() {
    assert!(is_daemon_asset("ETH_ethereum.csv"));
    assert!(is_daemon_asset("BTC.csv"));
    assert!(!is_daemon_asset("BTC_bitcoin.csv"));
    assert!(!is_daemon_asset("coins.json"));
}

#[test]
fn asset_of_a_table_of_signals() {
    assert_eq!(asset_of_signals_file("signals_ETH_ethereum.csv"), Some("ETH_ethereum".to_string()));
    assert_eq!(asset_of_signals_file("signals_.csv"), Some("".to_string()));
    assert_eq!(asset_of_signals_file("signals_X.txt"), None);
    assert_eq!(asset_of_signals_file("BTC.csv"), None);
    assert_eq!(asset_of_signals_file("signals.csv"), None);
}

#[test]
fn names_of_tables() {
    assert_eq!(signals_file_name("SOL_solana"), "signals_SOL_solana.csv");
    assert_eq!(coin_file_name("ETH", "ethereum"), "ETH_ethereum.csv");
    assert_eq!(asset_of_signals_file(&signals_file_name("ADA")), Some("ADA".to_string()));
}

#[test]
fn white_space_characters() {
    for c in [' ', '\t', '\n', '\r', '\u{b}', '\u{c}', '\u{85}', '\u{a0}', '\u{1680}', '\u{2000}', '\u{200a}', '\u{2028}', '\u{2029}', '\u{202f}', '\u{205f}', '\u{3000}'] {
        assert!(is_whitespace(c));
        assert!(c.is_whitespace());
    }
    for c in ['a', '`', '\u{200b}', '\u{feff}', '0', '\u{8}', '\u{e}'] {
        assert!(!is_whitespace(c));
        assert!(!c.is_whitespace());
    }
}

#[test]
fn trim_removes_white_space_at_both_ends() {
    assert_eq!(trim("  a b \n"), "a b");
    assert_eq!(trim("a"), "a");
    assert_eq!(trim(" \t "), "");
    assert_eq!(trim(""), "");
    assert_eq!(trim("\u{3000}x\u{a0}"), "x");
}

#[test]
fn last_fence_position() {
    assert_eq!(find_last_fence("```json {} ```"), Some(11));
    assert_eq!(find_last_fence("```"), Some(0));
    assert_eq!(find_last_fence("````"), Some(1));
    assert_eq!(find_last_fence("``"), None);
    assert_eq!(find_last_fence("a `` b"), None);
    assert_eq!(find_last_fence(""), None);
}

#[test]
fn json_block_of_a_fenced_reply() {
    assert_eq!(extract_json_block("```json\n{\"a\": 1}\n```"), Some("{\"a\": 1}".to_string()));
    assert_eq!(extract_json_block("  ```json {\"a\": 1} ```  "), Some("{\"a\": 1}".to_string()));
    assert_eq!(extract_json_block("```\n{\"a\": 1}\n```"), Some("{\"a\": 1}".to_string()));
    assert_eq!(extract_json_block("```json```"), Some("".to_string()));
}

#[test]
fn json_block_of_a_plain_reply_is_the_reply() {
    assert_eq!(extract_json_block(" {\"a\": 1} "), Some("{\"a\": 1}".to_string()));
    assert_eq!(extract_json_block("x ```json {} ```"), Some("x ```json {} ```".to_string()));
    assert_eq!(extract_json_block(""), Some("".to_string()));
}

#[test]
fn json_block_of_an_unclosed_fence_is_missing() {
    assert_eq!(extract_json_block("```json {\"a\": 1}"), None);
    assert_eq!(extract_json_block("```"), None);
    assert_eq!(extract_json_block(" ``` {}"), None);
}

#[test]
fn steps_after_a_completion() {
    assert!(matches!(after_completion(&Completion::MissingKey), InsightStep::Fallback));
    assert!(matches!(after_completion(&Completion::HttpFailure), InsightStep::Fallback));
    assert!(matches!(after_completion(&Completion::Unreachable), InsightStep::Fallback));
    assert!(matches!(after_completion(&Completion::Unreadable), InsightStep::Fallback));
    assert!(matches!(after_completion(&Completion::NoChoices), InsightStep::Fallback));
    assert!(matches!(after_completion(&Completion::EmptyChoices), InsightStep::Fallback));
    assert!(matches!(after_completion(&Completion::NoContent), InsightStep::Fallback));
    assert!(matches!(after_completion(&Completion::Content("  \n".to_string())), InsightStep::Fallback));
    assert!(matches!(after_completion(&Completion::Content("```json {".to_string())), InsightStep::Fallback));
    match after_completion(&Completion::Content("```json\n{\"x\": 2}\n```".to_string())) {
        InsightStep::Parse(t) => assert_eq!(t, "{\"x\": 2}"),
        _ => panic!("the answer should be read"),
    }
    match after_completion(&Completion::Content("{}".to_string())) {
        InsightStep::Parse(t) => assert_eq!(t, "{}"),
        _ => panic!("the answer should be read"),
    }
}

fn failures() -> Vec<Completion> {
    vec![
        Completion::MissingKey,
        Completion::Unreachable,
        Completion::HttpFailure,
        Completion::Unreadable,
        Completion::NoChoices,
        Completion::EmptyChoices,
        Completion::NoContent,
    ]
}

#[test]
fn free_text_of_a_reply_or_what_is_derived() {
    for c in failures() {
        assert_eq!(narrative_or(c, "derived".to_string()), "derived");
    }
    assert_eq!(narrative_or(Completion::Content("told".to_string()), "derived".to_string()), "told");
}

#[test]
fn every_failure_of_the_service_gives_the_derived_texts() {
    let analysis = portfolio_fallback_analysis(8, 3, 1_234 * ONE / 100, 156 * ONE / 100, 6_250 * ONE / 100, "risk-on");
    let context = market_fallback_context(6_543_210 * ONE / 100, 3_500 * ONE, -6 * ONE, Some(25));
    for c in failures() {
        assert_eq!(
            generate_portfolio_insights(c.clone(), 8, 3, 1_234 * ONE / 100, 156 * ONE / 100, 6_250 * ONE / 100, "risk-on"),
            analysis
        );
        assert_eq!(generate_market_context(c, 6_543_210 * ONE / 100, 3_500 * ONE, -6 * ONE, Some(25)), context);
    }
    let told = Completion::Content("Breadth is narrow.".to_string());
    assert_eq!(generate_portfolio_insights(told.clone(), 8, 3, 0, 0, 0, "risk-on"), "Breadth is narrow.");
    assert_eq!(generate_market_context(told, ONE, ONE, 0, None), "Breadth is narrow.");
}

#[test]
fn insights_that_could_not_be_read_are_derived() {
    let m = AssetMetrics {
        asset: "SOL".to_string(),
        total_return: 11 * ONE * ONE,
        sharpe_ratio: 3 * ONE,
        win_rate: 45 * ONE,
        max_drawdown: 25 * ONE,
        trading_days: 19,
        profit_factor: ProfitFactor::Infinite,
        current_price: 138 * ONE,
        ma30: 130 * ONE,
        ma7: 136 * ONE,
        rs_ma7: 0,
        rs_ma30: 0,
        atr_14: 2 * ONE,
        volatility: None,
    };
    let derived = generate_asset_insights(None, &m);
    let direct = generate_fallback_insights("SOL", 11 * ONE * ONE, 3 * ONE, 45 * ONE, 25 * ONE);
    assert_eq!(derived.asset, "SOL");
    assert_eq!(derived.trading_notes, direct.trading_notes);
    assert_eq!(derived.risk_assessment, "Moderate risk with good return potential");
    assert_eq!(derived.execution_recommendations, direct.execution_recommendations);
    assert_eq!(derived.market_context, "Market analysis unavailable - using fallback metrics");
    let read = AssetInsights {
        asset: "SOL".to_string(),
        trading_notes: vec!["a".to_string()],
        risk_assessment: "b".to_string(),
        execution_recommendations: vec![],
        market_context: "c".to_string(),
    };
    let kept = generate_asset_insights(Some(read), &m);
    assert_eq!((kept.trading_notes, kept.risk_assessment, kept.market_context), (vec!["a".to_string()], "b".to_string(), "c".to_string()));
}

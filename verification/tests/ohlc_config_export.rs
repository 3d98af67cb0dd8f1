use crypto_strategy::config::{
    apply_ohlc_defaults, apply_strategy_defaults, signal_params, OhlcArgs, StrategyArgs,
};
use crypto_strategy::deploy::{cron_job, docker_compose, portfolio_summary, systemd_service};
use crypto_strategy::export::{
    bar_record, equity_record, metrics_summary, push_percent, signal_header, signal_record,
};
use crypto_strategy::ohlc::{
    bitcoin, daily_bars, default_range, finish_top, keep_named, last_per_day, merge_coins,
    next_chunk, next_page_size, plan_update, retry_decision, rows_to_write, run_window,
    sort_by_time, starting_coins, to_seconds, write_mode, DailyBar, MarketCoin, OhlcRaw,
    RetryDecision, RunError, UpdatePlan, WriteMode,
};
use crypto_strategy::portfolio::{PortfolioMetrics, PortfolioState};
use crypto_strategy::signals::{DailySignal, RS_SCALE};

const ONE: i128 = 100_000_000;
const DAY: i32 = 735_733;
const MIDNIGHT: i64 = 1_431_648_000;

fn coin(id: &str, rank: Option<u32>) -> MarketCoin {
    MarketCoin { id: id.to_string(), symbol: id.to_string(), name: id.to_string(), market_cap_rank: rank }
}

fn ids(coins: &[MarketCoin]) -> Vec<String> {
    coins.iter().map(|c| c.id.clone()).collect()
}

fn bar(date: i32) -> DailyBar {
    DailyBar { date, open: 1, high: 2, low: 3, close: 4 }
}

#[test]
fn default_range_is_the_thirty_days_before_yesterday() {
    assert_eq!(default_range(1000, None, None), (969, 999));
    assert_eq!(default_range(1000, Some(5), None), (5, 999));
    assert_eq!(default_range(1000, None, Some(500)), (470, 500));
    assert_eq!(default_range(1000, Some(7), Some(8)), (7, 8));
    assert_eq!(default_range(i32::MIN, None, None), (i32::MIN, i32::MIN));
}

#[test]
fn run_window_spans_whole_days() {
    assert_eq!(run_window(DAY, DAY), Ok((MIDNIGHT, MIDNIGHT + 86_399)));
    assert_eq!(run_window(DAY, DAY + 1), Ok((MIDNIGHT, MIDNIGHT + 2 * 86_400 - 1)));
    assert_eq!(run_window(DAY, DAY - 1), Err(RunError::EndNotAfterStart));
    assert_eq!(run_window(90_000_001, DAY), Err(RunError::DateOutOfRange));
    assert_eq!(run_window(DAY, -90_000_001), Err(RunError::DateOutOfRange));
}

#[test]
fn retries_back_off_and_give_up() {
    assert_eq!(retry_decision(1, None), RetryDecision::Wait(300));
    assert_eq!(retry_decision(6, None), RetryDecision::Wait(1800));
    assert_eq!(retry_decision(7, None), RetryDecision::GiveUp);
    assert_eq!(retry_decision(1, Some(2)), RetryDecision::Wait(2000));
    assert_eq!(retry_decision(7, Some(2)), RetryDecision::GiveUp);
    assert_eq!(retry_decision(1, Some(u64::MAX)), RetryDecision::Wait(u64::MAX));
    assert_eq!(retry_decision(0, None), RetryDecision::Wait(0));
}

#[test]
fn chunks_are_at_most_180_days() {
    let span = 180 * 86_400;
    assert_eq!(next_chunk(0, 100), Some((0, 100, 101)));
    assert_eq!(next_chunk(0, span), Some((0, span, span + 1)));
    assert_eq!(next_chunk(0, span + 1), Some((0, span, span + 1)));
    assert_eq!(next_chunk(span + 1, span + 1), None);
    assert_eq!(next_chunk(5, 4), None);
    assert_eq!(next_chunk(i64::MAX - 1, i64::MAX), Some((i64::MAX - 1, i64::MAX, i64::MAX)));
    // walking the chunks covers the run without overlap
    let (mut from, to) = (MIDNIGHT, MIDNIGHT + 400 * 86_400);
    let mut chunks = vec![];
    while let Some((a, b, next)) = next_chunk(from, to) {
        chunks.push((a, b));
        from = next;
    }
    assert_eq!(chunks, vec![(MIDNIGHT, MIDNIGHT + span), (MIDNIGHT + span + 1, MIDNIGHT + 2 * span + 1), (MIDNIGHT + 2 * span + 2, to)]);
}

#[test]
fn update_plan_resumes_after_the_last_date() {
    assert_eq!(plan_update(10, 20, false, Some(DAY)), UpdatePlan::Fetch { from_ts: 10 });
    assert_eq!(plan_update(10, 20, true, None), UpdatePlan::Fetch { from_ts: 10 });
    assert_eq!(plan_update(0, MIDNIGHT + 86_400, true, Some(DAY - 1)), UpdatePlan::Fetch { from_ts: MIDNIGHT });
    assert_eq!(plan_update(0, MIDNIGHT, true, Some(DAY - 1)), UpdatePlan::Fetch { from_ts: MIDNIGHT });
    assert_eq!(plan_update(0, MIDNIGHT - 1, true, Some(DAY - 1)), UpdatePlan::UpToDate);
    assert_eq!(plan_update(0, 20, true, Some(90_000_000)), UpdatePlan::DateOutOfRange);
    assert_eq!(plan_update(0, 20, true, Some(i32::MAX)), UpdatePlan::DateOutOfRange);
}

#[test]
fn rows_are_appended_only_when_resuming_an_existing_table() {
    assert_eq!(write_mode(true, true), WriteMode::Append);
    assert_eq!(write_mode(true, false), WriteMode::Fresh);
    assert_eq!(write_mode(false, true), WriteMode::Fresh);
    assert_eq!(write_mode(false, false), WriteMode::Fresh);
}

#[test]
fn rows_up_to_the_last_date_are_dropped_when_resuming() {
    let rows = vec![bar(5), bar(6), bar(7), bar(8)];
    assert_eq!(rows_to_write(&rows, true, true, Some(6)), vec![bar(7), bar(8)]);
    assert_eq!(rows_to_write(&rows, true, true, Some(8)), vec![]);
    assert_eq!(rows_to_write(&rows, false, true, Some(6)), rows);
    assert_eq!(rows_to_write(&rows, true, false, Some(6)), rows);
    assert_eq!(rows_to_write(&rows, true, true, None), rows);
}

#[test]
fn a_run_starts_with_the_baseline() {
    let b = bitcoin();
    assert_eq!((b.id.as_str(), b.symbol.as_str(), b.name.as_str(), b.market_cap_rank), ("bitcoin", "btc", "Bitcoin", Some(1)));
    assert_eq!(ids(&starting_coins(false)), vec!["bitcoin"]);
    assert!(starting_coins(true).is_empty());
}

#[test]
fn coins_of_the_listing_that_are_known_are_left_out() {
    let top = vec![coin("bitcoin", Some(1)), coin("ethereum", Some(2)), coin("solana", Some(5)), coin("ethereum", Some(2))];
    assert_eq!(ids(&merge_coins(&starting_coins(false), &top)), vec!["bitcoin", "ethereum", "solana", "ethereum"]);
    assert_eq!(ids(&merge_coins(&starting_coins(true), &top)), vec!["bitcoin", "ethereum", "solana", "ethereum"]);
    assert_eq!(ids(&merge_coins(&starting_coins(false), &vec![])), vec!["bitcoin"]);
}

#[test]
fn coins_without_an_id_are_dropped() {
    let page = vec![coin("a", None), coin("", Some(1)), coin("b", None)];
    assert_eq!(ids(&keep_named(&page)), vec!["a", "b"]);
}

#[test]
fn pages_hold_at_most_250_coins() {
    assert_eq!(next_page_size(100, 0, None), Some(100));
    assert_eq!(next_page_size(600, 0, None), Some(250));
    assert_eq!(next_page_size(600, 500, Some(250)), Some(100));
    assert_eq!(next_page_size(600, 600, Some(100)), None);
    assert_eq!(next_page_size(600, 250, Some(0)), None);
    assert_eq!(next_page_size(0, 0, None), None);
}

#[test]
fn the_listing_is_ordered_by_rank_and_cut() {
    let coins = vec![coin("c", Some(3)), coin("n", None), coin("a", Some(1)), coin("c2", Some(3)), coin("b", Some(2))];
    assert_eq!(ids(&finish_top(&coins, 10)), vec!["a", "b", "c", "c2", "n"]);
    assert_eq!(ids(&finish_top(&coins, 3)), vec!["a", "b", "c"]);
    assert!(finish_top(&coins, 0).is_empty());
    assert!(finish_top(&vec![], 5).is_empty());
}

#[test]
fn milliseconds_round_towards_zero() {
    assert_eq!(to_seconds(1999), 1);
    assert_eq!(to_seconds(-1999), -1);
    assert_eq!(to_seconds(-1), 0);
    assert_eq!(to_seconds(i64::MIN), i64::MIN / 1000);
    assert_eq!(to_seconds(i64::MAX), i64::MAX / 1000);
}

#[test]
fn candles_are_put_in_order_of_time() {
    let raws = vec![OhlcRaw(30, 1, 1, 1, 1), OhlcRaw(10, 2, 2, 2, 2), OhlcRaw(30, 3, 3, 3, 3), OhlcRaw(20, 4, 4, 4, 4)];
    assert_eq!(sort_by_time(&raws), vec![raws[1], raws[3], raws[0], raws[2]]);
}

#[test]
fn the_last_candle_of_each_day_is_kept() {
    let ms = MIDNIGHT * 1000;
    let raws = vec![
        OhlcRaw(ms + 86_400_000, 5, 5, 5, 5),
        OhlcRaw(ms, 1, 2, 0, 1),
        OhlcRaw(ms + 3_600_000, 1, 3, 0, 2),
        OhlcRaw(ms + 86_400_000 - 1, 1, 4, 0, 3),
    ];
    assert_eq!(
        daily_bars(&raws),
        Some(vec![DailyBar { date: DAY, open: 1, high: 4, low: 0, close: 3 }, DailyBar { date: DAY + 1, open: 5, high: 5, low: 5, close: 5 }])
    );
    assert_eq!(daily_bars(&vec![]), Some(vec![]));
    assert_eq!(daily_bars(&vec![OhlcRaw(i64::MAX, 1, 1, 1, 1)]), None);
    // candles that are not in order of time: a day may come twice
    let unsorted = vec![raws[1], raws[0], raws[2]];
    assert_eq!(last_per_day(&unsorted).unwrap().iter().map(|b| b.date).collect::<Vec<_>>(), vec![DAY, DAY + 1, DAY]);
}

#[test]
fn defaults_of_the_export() {
    let mut args = OhlcArgs::default();
    args.vs = Some("eur".to_string());
    args.resume = Some(true);
    apply_ohlc_defaults(&mut args);
    assert_eq!(args.out.as_deref(), Some("./out"));
    assert_eq!(args.api_key, None);
    assert_eq!(args.top_n, Some(100));
    assert_eq!(args.vs.as_deref(), Some("eur"));
    assert_eq!(args.start, None);
    assert_eq!(args.end, None);
    assert_eq!(args.concurrency, Some(6));
    assert_eq!(args.request_delay_ms, Some(250));
    assert_eq!(args.write_manifest, Some(true));
    assert_eq!(args.resume, Some(true));
    assert_eq!(args.daily_at, None);
    assert_eq!(args.lock_file, None);
    assert_eq!(args.skip_btc, Some(false));
}

#[test]
fn defaults_of_the_backtest() {
    let mut args = StrategyArgs::default();
    args.ma_long = Some(30);
    args.assets = Some(vec!["a.csv".to_string()]);
    apply_strategy_defaults(&mut args);
    assert_eq!(args.btc.as_deref(), Some("./out/BTC.csv"));
    assert_eq!(args.assets, Some(vec!["a.csv".to_string()]));
    assert_eq!(args.out.as_deref(), Some("./out/signals"));
    assert_eq!(args.ma_short, Some(3));
    assert_eq!(args.ma_long, Some(30));
    assert_eq!(args.min_signals, Some(2));
    assert_eq!(args.short_alts, Some(false));
    assert_eq!(args.btc_hedge, Some(30_000_000));
    assert_eq!(args.stop_lookback, Some(14));
    assert_eq!(args.atr_mult, Some(3 * ONE));
    assert_eq!(args.vol_mult, Some(5 * ONE / 2));
    let p = signal_params(&args).unwrap();
    assert_eq!((p.ma_short, p.ma_long, p.stop_lookback, p.atr_mult, p.vol_mult, p.min_signals, p.short_alts), (3, 30, 14, 3 * ONE, 5 * ONE / 2, 2, false));
}

#[test]
fn signal_parameters_need_every_argument() {
    assert!(signal_params(&StrategyArgs::default()).is_none());
    let mut args = StrategyArgs::default();
    apply_strategy_defaults(&mut args);
    args.vol_mult = Some(1001 * ONE);
    assert!(signal_params(&args).is_none());
    args.vol_mult = Some(1000 * ONE);
    args.short_alts = None;
    assert!(!signal_params(&args).unwrap().short_alts);
}

#[test]
fn record_of_a_signal() {
    let sig = DailySignal {
        date: DAY,
        price: 123_456_789_012,
        ma_short: Some(120 * ONE),
        ma_long: None,
        rs: Some(RS_SCALE / 8),
        rs_ma_short: Some(RS_SCALE / 3),
        rs_ma_long: None,
        trend_bull: true,
        mom_bull: false,
        rs_bull: true,
        score: 2,
        raw_weight: ONE / 2,
        stop_level: Some(-5 * ONE / 2),
    };
    assert_eq!(
        signal_record(&sig).unwrap(),
        vec!["2015-05-15", "1234.56789012", "120.00000000", "", "0.12500000", "0.33333333", "", "true", "false", "true", "2", "0.5000", "-2.50000000"]
    );
    assert_eq!(
        signal_header(),
        vec!["date", "close", "ma_short", "ma_long", "rs", "rs_ma_short", "rs_ma_long", "trend_bull", "mom_bull", "rs_bull", "score", "raw_weight", "stop_level"]
    );
    let mut far = sig;
    far.date = 90_000_001;
    assert!(signal_record(&far).is_none());
    let mut big = sig;
    big.price = 1_000_000_000_000_000_000_000_000_001;
    assert!(signal_record(&big).is_none());
}

#[test]
fn record_of_a_day_of_the_equity_curve() {
    let state = PortfolioState { date: DAY, equity: 10_333_333_349_999_999, daily_return: -333_333_350_000_000, active_position_count: 2 };
    assert_eq!(equity_record(&state, 6_543_215 * ONE / 100).unwrap(), vec!["2015-05-15", "1.03333333", "-0.03333334", "2", "65432.15"]);
    let far = PortfolioState { date: -90_000_001, ..state };
    assert!(equity_record(&far, ONE).is_none());
}

#[test]
fn record_of_a_candle() {
    let b = DailyBar { date: DAY, open: ONE, high: 3 * ONE / 2, low: ONE / 2, close: 5 };
    assert_eq!(bar_record(&b).unwrap(), vec!["2015-05-15", "1.00000000", "1.50000000", "0.50000000", "0.00000005"]);
    assert!(bar_record(&DailyBar { date: 90_000_001, ..b }).is_none());
}

#[test]
fn percentages_as_text() {
    let mut s = String::new();
    push_percent(&mut s, 12_345_678, 2);
    assert_eq!(s, "12.35");
    let mut s = String::new();
    push_percent(&mut s, -ONE / 3, 1);
    assert_eq!(s, "-33.3");
    let mut s = String::new();
    push_percent(&mut s, ONE, 0);
    assert_eq!(s, "100");
}

#[test]
fn statistics_of_a_run_as_text() {
    let m = PortfolioMetrics { days: 40, total_return: 31_995 * ONE * ONE / 100_000, sharpe: 401_422_118, max_drawdown: 2_000_000, win_rate: ONE / 2 };
    assert_eq!(
        metrics_summary(&m, "1162.50").unwrap(),
        "Days: 40\nTotal Return: 32.00%\nCAGR: 1162.50%\nSharpe (ann.): 4.01\nMax Drawdown: 2.00%\nWin Rate: 50.00%\n"
    );
}

#[test]
fn texts_of_the_deployment() {
    let unit = systemd_service(100_000 * ONE, ONE, 60);
    assert!(unit.starts_with("[Unit]\nDescription=Crypto Strategy Daemon\n"));
    assert!(unit.contains("ExecStart=/opt/crypto-strategy/target/release/crypto-strategy daemon --continuous --portfolio-value 100000 --risk-cap-percent 1.0 --check-interval 60\nRestart=always\n"));
    assert!(unit.ends_with("[Install]\nWantedBy=multi-user.target"));
    let jobs = cron_job(15);
    assert!(jobs.starts_with("# Crypto Strategy Daemon - Run every 15 minutes\n0,15,30,45 * * * * /opt/crypto-strategy/target/release/crypto-strategy daemon --portfolio-value 100000 --risk-cap-percent 1.0 >> /var/log/crypto-strategy.log 2>&1\n"));
    assert!(jobs.ends_with("0 2 * * 0 find /var/log/crypto-strategy.log -mtime +7 -delete"));
    let compose = docker_compose(250_000 * ONE, 3 * ONE / 2, 30);
    assert!(compose.starts_with("version: '3.8'\n\nservices:\n  crypto-strategy:\n"));
    assert!(compose.contains("    command: daemon --continuous --portfolio-value 250000 --risk-cap-percent 1.5 --check-interval 30\n    healthcheck:\n"));
    assert!(compose.ends_with("volumes:\n  grafana-storage:"));
    assert_eq!(
        portfolio_summary("2015-05-15 00:00:00 UTC", 100_000 * ONE, ONE),
        "=== PORTFOLIO SUMMARY - 2015-05-15 00:00:00 UTC ===\nPortfolio Value: $100000\nRisk Cap per Position: 1.0%\nGenerated: 2015-05-15 00:00:00 UTC\n\nRun 'cargo run -- daemon --help' for options\nRun 'cargo run -- trade' to see detailed playbooks\nRun 'cargo run -- analyze' to see strategy analysis\n"
    );
}

#[test]
fn the_baseline_is_left_out_of_the_other_coins() {
    let coins = vec![coin("bitcoin", Some(1)), coin("ethereum", Some(2)), coin("bitcoin", None), coin("solana", Some(5))];
    assert_eq!(ids(&crypto_strategy::ohlc::without_baseline(&coins)), vec!["ethereum", "solana"]);
}

#[test]
fn arguments_of_the_daemon() {
    let o = crypto_strategy::config::daemon_ohlc_args("2015-04-14".to_string(), "2015-05-14".to_string());
    assert_eq!(o.out.as_deref(), Some("./out"));
    assert_eq!(o.top_n, Some(100));
    assert_eq!(o.vs.as_deref(), Some("usd"));
    assert_eq!(o.start.as_deref(), Some("2015-04-14"));
    assert_eq!(o.end.as_deref(), Some("2015-05-14"));
    assert_eq!((o.concurrency, o.request_delay_ms, o.write_manifest, o.resume), (Some(6), Some(250), Some(true), Some(true)));
    assert_eq!((o.api_key, o.daily_at, o.lock_file, o.skip_btc), (None, None, None, None));
    let s = crypto_strategy::config::daemon_strategy_args(vec!["./out/ETH_ethereum.csv".to_string()]);
    assert_eq!(s.btc.as_deref(), Some("./out/BTC.csv"));
    assert_eq!(s.out.as_deref(), Some("./out/signals"));
    assert_eq!(s.assets, Some(vec!["./out/ETH_ethereum.csv".to_string()]));
    assert_eq!((s.ma_short, s.ma_long, s.stop_lookback, s.min_signals), (Some(3), Some(7), Some(14), Some(2)));
    assert_eq!((s.atr_mult, s.vol_mult, s.btc_hedge, s.short_alts), (Some(3 * ONE), Some(5 * ONE / 2), Some(0), None));
    assert_eq!(crypto_strategy::config::DEFAULT_PORTFOLIO_VALUE, 100_000 * ONE);
}

use crypto_strategy::backtest::{duplicate, run_backtest};
use crypto_strategy::calendar::AlignError;
use crypto_strategy::export::equity_record;
use crypto_strategy::series::Series;
use crypto_strategy::signals::{SignalParams, FULL_WEIGHT};

const ONE: i128 = 100_000_000;
const FINE: i128 = 10_000_000_000_000_000;

fn params() -> SignalParams {
    SignalParams {
        ma_short: 3,
        ma_long: 7,
        stop_lookback: 14,
        atr_mult: 3 * ONE,
        vol_mult: 5 * ONE / 2,
        min_signals: 2,
        short_alts: false,
    }
}

fn series(first_day: i32, closes: &[i128]) -> Series {
    let n = closes.len();
    Series::new((first_day..first_day + n as i32).collect(), closes.iter().map(|c| c * ONE).collect(), vec![None; n], vec![None; n]).unwrap()
}

#[test]
fn rising_and_flat_asset_against_a_rising_baseline() {
    let baseline = series(0, &(0..40).map(|i| 1000 + i).collect::<Vec<i128>>());
    let rising = series(0, &(0..40).map(|i| 100 + 2 * i).collect::<Vec<i128>>());
    let flat = series(0, &vec![50; 40]);
    let r = run_backtest(&baseline, &vec![rising, flat], &params(), 0).unwrap();
    assert_eq!(r.kept, vec![0, 1]);
    assert_eq!(r.calendar, (0..40).collect::<Vec<i32>>());
    assert_eq!(r.signals.len(), 2);
    assert_eq!(r.states.len(), 40);
    for i in 0..40 {
        let up = &r.signals[0][i];
        let level = &r.signals[1][i];
        assert_eq!(up.ma_short.is_some(), i >= 2);
        assert_eq!(up.ma_long.is_some(), i >= 6);
        if i >= 6 {
            // both averages are defined and the close is above the long one
            assert!(up.price > up.ma_long.unwrap());
            assert_eq!(up.score, 3);
            assert_eq!(up.raw_weight, FULL_WEIGHT);
        } else {
            assert!(up.score < 3);
            assert_eq!(up.raw_weight, 0);
        }
        assert!(!level.trend_bull && !level.mom_bull && !level.rs_bull);
        assert_eq!(level.score, 0);
        assert_eq!(level.raw_weight, 0);
    }
    assert_eq!(r.states[0].equity, FINE);
    for i in 1..40 {
        let s = &r.states[i];
        if i >= 7 {
            // the rising asset is the only long position
            assert_eq!(s.active_position_count, 1);
            assert!(s.daily_return > 0);
            assert!(s.equity >= r.states[i - 1].equity);
        } else {
            assert_eq!(s.active_position_count, 0);
            assert_eq!(s.equity, FINE);
        }
    }
    // the equity follows the asset from day 6 on: 178 / 112
    let last = r.states[39].equity;
    assert!((r.states[7].equity as f64 / FINE as f64 - 114.0 / 112.0).abs() < 1e-12);
    assert!((last as f64 / FINE as f64 - 178.0 / 112.0).abs() < 1e-12);
    let record = equity_record(&r.states[39], 139 * ONE).unwrap();
    assert_eq!(record[1], "1.58928571");
    assert_eq!(equity_record(&r.states[7], 107 * ONE).unwrap()[1], "1.01785714");
    assert_eq!(r.metrics.days, 40);
    assert_eq!(r.metrics.total_return, last - FINE);
    assert_eq!(r.metrics.max_drawdown, 0);
    assert_eq!(r.metrics.win_rate, ONE);
    assert!(r.metrics.sharpe > 0);
}

#[test]
fn a_short_series_is_left_out_before_alignment() {
    let baseline = series(0, &(0..40).map(|i| 1000 + i).collect::<Vec<i128>>());
    let long = series(0, &(0..40).map(|i| 100 + i).collect::<Vec<i128>>());
    let short = series(30, &vec![10; 16]);
    let r = run_backtest(&baseline, &vec![short, long], &params(), 0).unwrap();
    assert_eq!(r.kept, vec![1]);
    assert_eq!(r.calendar.len(), 40);
    assert_eq!(r.assets.len(), 1);
    assert_eq!(r.assets[0].close[5], 105 * ONE);
}

#[test]
fn a_series_with_enough_days_truncates_the_calendar() {
    let baseline = series(0, &(0..40).map(|i| 1000 + i).collect::<Vec<i128>>());
    let late = series(20, &(0..30).map(|i| 100 + i).collect::<Vec<i128>>());
    let r = run_backtest(&baseline, &vec![late], &params(), 0).unwrap();
    assert_eq!(r.calendar, (20..40).collect::<Vec<i32>>());
    assert_eq!(r.baseline.close[0], 1020 * ONE);
    assert_eq!(r.assets[0].close[0], 100 * ONE);
    assert_eq!(r.baseline_signals[0].price, 1020 * ONE);
}

#[test]
fn too_few_shared_dates_fail_the_run() {
    let baseline = series(0, &(0..40).map(|i| 1000 + i).collect::<Vec<i128>>());
    let late = series(30, &(0..30).map(|i| 100 + i).collect::<Vec<i128>>());
    let r = run_backtest(&baseline, &vec![late], &params(), 0);
    assert_eq!(
        r.err(),
        Some(AlignError::InsufficientHistory { required: 17, actual: 10, series: 2, first_date: Some(30), last_date: Some(39) })
    );
    let short_base = series(0, &vec![1000; 16]);
    let r = run_backtest(&short_base, &vec![], &params(), 0);
    assert_eq!(
        r.err(),
        Some(AlignError::InsufficientHistory { required: 17, actual: 16, series: 1, first_date: Some(0), last_date: Some(15) })
    );
}

#[test]
fn a_run_without_assets_holds_nothing() {
    let baseline = series(0, &(0..20).map(|i| 1000 + i).collect::<Vec<i128>>());
    let r = run_backtest(&baseline, &vec![], &params(), 30_000_000).unwrap();
    assert_eq!(r.states.len(), 20);
    assert!(r.states.iter().all(|s| s.equity == FINE && s.active_position_count == 0));
}

#[test]
fn the_hedge_gains_when_a_bearish_baseline_falls() {
    let baseline = series(0, &(0..30).map(|i| 1000 - 10 * i).collect::<Vec<i128>>());
    let r = run_backtest(&baseline, &vec![], &params(), 30_000_000).unwrap();
    for i in 1..30 {
        if i >= 7 {
            assert!(r.states[i].daily_return > 0);
        } else {
            assert_eq!(r.states[i].daily_return, 0);
        }
    }
    let without = run_backtest(&baseline, &vec![], &params(), 0).unwrap();
    assert!(without.states.iter().all(|s| s.daily_return == 0));
}

#[test]
fn a_copy_of_a_series_holds_the_same_columns() {
    let s = Series::new(vec![1, 2], vec![10, 20], vec![Some(11), None], vec![None, Some(19)]).unwrap();
    let c = duplicate(&s);
    assert_eq!((c.dates, c.close, c.high, c.low), (s.dates, s.close, s.high, s.low));
}

use crypto_strategy::series::Series;
use crypto_strategy::signals::{
    close_to_close_returns, compute_signals, raw_weight, relative_strength, score, stop_level,
    SignalParams, FULL_WEIGHT, HALF_WEIGHT, RS_SCALE, SHORT_WEIGHT,
};

const ONE: i128 = 100_000_000;

fn params() -> SignalParams {
    SignalParams {
        ma_short: 2,
        ma_long: 3,
        stop_lookback: 2,
        atr_mult: 3 * ONE,
        vol_mult: 5 * ONE / 2,
        min_signals: 2,
        short_alts: false,
    }
}

fn plain(close: &[i128]) -> Series {
    let n = close.len();
    Series::new((0..n as i32).collect(), close.to_vec(), vec![None; n], vec![None; n]).unwrap()
}

#[test]
fn score_counts_the_bullish_signals() {
    assert_eq!(score(false, false, false), 0);
    assert_eq!(score(true, false, false), 1);
    assert_eq!(score(true, false, true), 2);
    assert_eq!(score(true, true, true), 3);
}

#[test]
fn raw_weight_is_full_on_three_signals() {
    assert_eq!(raw_weight(3, true, false, 2, false), FULL_WEIGHT);
    assert_eq!(raw_weight(3, true, false, 4, true), FULL_WEIGHT);
    assert_eq!(FULL_WEIGHT, ONE);
}

#[test]
fn raw_weight_is_half_with_enough_signals_and_relative_strength() {
    assert_eq!(raw_weight(2, true, false, 2, false), HALF_WEIGHT);
    assert_eq!(raw_weight(1, true, false, 1, false), HALF_WEIGHT);
    assert_eq!(HALF_WEIGHT, ONE / 2);
}

#[test]
fn raw_weight_is_never_half_below_min_signals() {
    for s in 0..3usize {
        for rs in [false, true] {
            for bear in [false, true] {
                for short in [false, true] {
                    let w = raw_weight(s, rs, bear, 3, short);
                    assert!(w == 0 || w == SHORT_WEIGHT);
                }
            }
        }
    }
    assert_eq!(raw_weight(1, true, false, 2, false), 0);
}

#[test]
fn raw_weight_without_relative_strength_is_not_half() {
    assert_eq!(raw_weight(2, false, false, 2, false), 0);
}

#[test]
fn raw_weight_is_short_only_where_enabled_and_fully_bearish() {
    assert_eq!(raw_weight(0, false, true, 2, true), SHORT_WEIGHT);
    assert_eq!(raw_weight(0, false, true, 2, false), 0);
    assert_eq!(raw_weight(0, false, false, 2, true), 0);
    assert_eq!(SHORT_WEIGHT, -ONE);
}

#[test]
fn stop_level_uses_the_average_true_range_first() {
    // 100 - 3.0 * 4 = 88
    let stop = stop_level(100 * ONE, Some(4 * ONE), Some(ONE / 100), 3 * ONE, 5 * ONE / 2);
    assert_eq!(stop, Some(88 * ONE));
}

#[test]
fn stop_level_falls_back_on_the_return_deviation() {
    // 200 * (1 - 2.5 * 0.02) = 190
    let stop = stop_level(200 * ONE, None, Some(2 * ONE / 100), 3 * ONE, 5 * ONE / 2);
    assert_eq!(stop, Some(190 * ONE));
    // an average true range of zero does not count
    let stop = stop_level(200 * ONE, Some(0), Some(2 * ONE / 100), 3 * ONE, 5 * ONE / 2);
    assert_eq!(stop, Some(190 * ONE));
}

#[test]
fn stop_level_is_undefined_without_either() {
    assert_eq!(stop_level(200 * ONE, None, None, 3 * ONE, 5 * ONE / 2), None);
    assert_eq!(stop_level(200 * ONE, Some(0), None, 3 * ONE, 5 * ONE / 2), None);
}

#[test]
fn relative_strength_is_asset_over_baseline() {
    let rs = relative_strength(&vec![50, 30, 1], &vec![100, 10, 3]);
    assert_eq!(rs, vec![RS_SCALE / 2, 3 * RS_SCALE, 3_333_333_333_333_333]);
}

#[test]
fn close_to_close_returns_are_one_shorter_than_the_closes() {
    let r = close_to_close_returns(&vec![100, 110, 99]);
    assert_eq!(r, vec![ONE / 10, -ONE / 10]);
    assert_eq!(close_to_close_returns(&vec![100]), Vec::<i128>::new());
    assert_eq!(close_to_close_returns(&vec![]), Vec::<i128>::new());
}

#[test]
fn close_to_close_returns_saturate() {
    let r = close_to_close_returns(&vec![1, 1_000_000_000_000_000_000]);
    assert_eq!(r, vec![1_000_000_000_000_000]);
}

#[test]
fn compute_signals_on_a_rising_asset_against_a_flat_baseline() {
    let asset = plain(&[100, 110, 120, 130, 140]);
    let base = plain(&[1000, 1000, 1000, 1000, 1000]);
    let sigs = compute_signals(&asset, &base, &params());
    assert_eq!(sigs.len(), 5);
    // day 0: nothing is defined
    assert_eq!(sigs[0].date, 0);
    assert_eq!(sigs[0].price, 100);
    assert_eq!(sigs[0].ma_short, None);
    assert_eq!(sigs[0].ma_long, None);
    assert_eq!(sigs[0].rs, Some(RS_SCALE / 10));
    assert_eq!(sigs[0].score, 0);
    assert_eq!(sigs[0].raw_weight, 0);
    assert_eq!(sigs[0].stop_level, None);
    // day 1: the short average is defined, the long one is not
    assert_eq!(sigs[1].ma_short, Some(105));
    assert_eq!(sigs[1].ma_long, None);
    assert!(!sigs[1].trend_bull && !sigs[1].mom_bull && !sigs[1].rs_bull);
    // true ranges without high and low: 0, 10, 10, ...; ATR(2) on day 1 is 5
    assert_eq!(sigs[1].stop_level, Some(110 - 15));
    // day 2: all three signals
    assert_eq!(sigs[2].ma_short, Some(115));
    assert_eq!(sigs[2].ma_long, Some(110));
    assert_eq!(sigs[2].rs_ma_short, Some(115 * RS_SCALE / 1000));
    assert_eq!(sigs[2].rs_ma_long, Some(110 * RS_SCALE / 1000));
    assert!(sigs[2].trend_bull && sigs[2].mom_bull && sigs[2].rs_bull);
    assert_eq!(sigs[2].score, 3);
    assert_eq!(sigs[2].raw_weight, FULL_WEIGHT);
    assert_eq!(sigs[2].stop_level, Some(120 - 30));
    assert_eq!(sigs[4].score, 3);
}

#[test]
fn compute_signals_stop_falls_back_on_the_deviation_of_the_returns() {
    // flat closes: the average true range is zero, so the stop comes from
    // the deviation of the returns, which is zero as well
    let asset = plain(&[100, 100, 100, 100]);
    let base = plain(&[10, 10, 10, 10]);
    let sigs = compute_signals(&asset, &base, &params());
    assert_eq!(sigs[0].stop_level, None);
    // one return so far: a window of two is not full
    assert_eq!(sigs[1].stop_level, None);
    assert_eq!(sigs[2].stop_level, Some(100));
    assert_eq!(sigs[3].stop_level, Some(100));
}

#[test]
fn compute_signals_uses_high_and_low_for_the_stop() {
    let asset = Series::new(
        vec![0, 1, 2],
        vec![100 * ONE, 104 * ONE, 108 * ONE],
        vec![Some(101 * ONE), Some(106 * ONE), Some(110 * ONE)],
        vec![Some(99 * ONE), Some(100 * ONE), Some(104 * ONE)],
    )
    .unwrap();
    let base = plain(&[ONE, ONE, ONE]);
    let sigs = compute_signals(&asset, &base, &params());
    // true ranges: 2, max(6, 6, 0) = 6, max(6, 6, 0) = 6; ATR(2): -, 4, 6
    assert_eq!(sigs[1].stop_level, Some(104 * ONE - 12 * ONE));
    assert_eq!(sigs[2].stop_level, Some(108 * ONE - 18 * ONE));
}

#[test]
fn compute_signals_shorts_a_falling_asset_where_enabled() {
    let asset = plain(&[140, 130, 120, 110, 100]);
    let base = plain(&[1000, 1000, 1000, 1000, 1000]);
    let mut p = params();
    let sigs = compute_signals(&asset, &base, &p);
    assert_eq!(sigs[3].score, 0);
    assert_eq!(sigs[3].raw_weight, 0);
    p.short_alts = true;
    let sigs = compute_signals(&asset, &base, &p);
    assert_eq!(sigs[1].raw_weight, 0);
    assert_eq!(sigs[3].raw_weight, SHORT_WEIGHT);
}

#[test]
fn compute_signals_half_weight_on_two_signals_with_relative_strength() {
    // the asset dips below its long average on the last day while its short
    // average and relative strength stay above
    let asset = plain(&[100, 120, 140, 160, 139]);
    let base = plain(&[1000, 1000, 1000, 1000, 1000]);
    let sigs = compute_signals(&asset, &base, &params());
    let last = &sigs[4];
    assert_eq!(last.ma_short, Some(149));
    assert_eq!(last.ma_long, Some(146));
    assert!(!last.trend_bull && last.mom_bull && last.rs_bull);
    assert_eq!(last.score, 2);
    assert_eq!(last.raw_weight, HALF_WEIGHT);
}

#[test]
fn signal_params_validity() {
    assert!(params().is_valid());
    let mut p = params();
    p.atr_mult = 100_000_000_001;
    assert!(!p.is_valid());
}

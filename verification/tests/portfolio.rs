use crypto_strategy::portfolio::{
    baseline_is_bear, day_totals, held_weight, portfolio_metrics, simulate_portfolio,
    PortfolioMetrics, PortfolioState,
};
use crypto_strategy::signals::DailySignal;

const ONE: i128 = 100_000_000;
const FINE: i128 = 10_000_000_000_000_000;

fn sig(date: i32, price: i128, raw_weight: i128, stop_level: Option<i128>) -> DailySignal {
    DailySignal {
        date,
        price,
        ma_short: None,
        ma_long: None,
        rs: None,
        rs_ma_short: None,
        rs_ma_long: None,
        trend_bull: false,
        mom_bull: false,
        rs_bull: false,
        score: 0,
        raw_weight,
        stop_level,
    }
}

fn base(date: i32, price: i128, ma_short: Option<i128>, ma_long: Option<i128>) -> DailySignal {
    let mut s = sig(date, price, 0, None);
    s.ma_short = ma_short;
    s.ma_long = ma_long;
    s
}

fn flat_base(n: i32) -> Vec<DailySignal> {
    (0..n).map(|d| base(d, 1000, None, None)).collect()
}

#[test]
fn equity_starts_at_one_and_day_zero_holds_nothing() {
    let a = vec![sig(0, 100, ONE, None)];
    let out = simulate_portfolio(&vec![a], &flat_base(1), 0);
    assert_eq!(out, vec![PortfolioState { date: 0, equity: FINE, daily_return: 0, active_position_count: 0 }]);
}

#[test]
fn simulation_of_no_days_is_empty() {
    assert_eq!(simulate_portfolio(&vec![], &vec![], 0), vec![]);
}

#[test]
fn simulation_without_assets_keeps_equity_at_one() {
    let out = simulate_portfolio(&vec![], &flat_base(3), 0);
    assert_eq!(out.len(), 3);
    for s in &out {
        assert_eq!((s.equity, s.daily_return, s.active_position_count), (FINE, 0, 0));
    }
}

#[test]
fn weights_are_normalized_across_longs_by_raw_weight() {
    let a = vec![sig(0, 100, ONE, None), sig(1, 110, ONE, None), sig(2, 121, 0, None)];
    let b = vec![sig(0, 50, ONE / 2, None), sig(1, 45, 0, None), sig(2, 54, 0, None)];
    let out = simulate_portfolio(&vec![a, b], &flat_base(3), 0);
    // day 1: (1.0 * 10% + 0.5 * -10%) / 1.5 = 3.333333%
    assert_eq!(out[1], PortfolioState { date: 1, equity: 10_333_333_333_333_333, daily_return: 333_333_333_333_333, active_position_count: 2 });
    // day 2: the only long gains 10%
    assert_eq!(out[2], PortfolioState { date: 2, equity: 11_366_666_666_666_666, daily_return: FINE / 10, active_position_count: 1 });
}

#[test]
fn entries_act_on_the_signal_of_the_day_before() {
    // the weight of day 1 earns nothing on day 1
    let a = vec![sig(0, 100, 0, None), sig(1, 200, ONE, None), sig(2, 200, ONE, None)];
    let out = simulate_portfolio(&vec![a], &flat_base(3), 0);
    assert_eq!(out[1].daily_return, 0);
    assert_eq!(out[1].active_position_count, 0);
    assert_eq!(out[2].daily_return, 0);
    assert_eq!(out[2].active_position_count, 1);
}

#[test]
fn a_broken_stop_forces_the_weight_to_zero() {
    let a = vec![sig(0, 110, ONE, Some(105)), sig(1, 104, ONE, Some(90)), sig(2, 100, 0, None)];
    let out = simulate_portfolio(&vec![a], &flat_base(3), 0);
    // day 1: 104 is below the stop of 105
    assert_eq!((out[1].daily_return, out[1].active_position_count), (0, 0));
    // day 2: 100 is above the stop of 90
    assert_eq!(out[2].active_position_count, 1);
    assert_eq!(out[2].daily_return, -384_615_384_615_385);
}

#[test]
fn a_price_at_the_stop_is_not_stopped_out() {
    assert_eq!(held_weight(&sig(0, 100, ONE, Some(95)), &sig(1, 95, 0, None)), ONE);
    assert_eq!(held_weight(&sig(0, 100, ONE, Some(95)), &sig(1, 94, 0, None)), 0);
    assert_eq!(held_weight(&sig(0, 100, ONE / 2, None), &sig(1, 1, 0, None)), ONE / 2);
}

#[test]
fn short_weights_are_not_held() {
    assert_eq!(held_weight(&sig(0, 100, -ONE, None), &sig(1, 90, 0, None)), 0);
    let a = vec![sig(0, 100, -ONE, None), sig(1, 90, 0, None)];
    let out = simulate_portfolio(&vec![a], &flat_base(2), 0);
    assert_eq!((out[1].daily_return, out[1].active_position_count, out[1].equity), (0, 0, FINE));
}

#[test]
fn day_totals_sum_over_the_assets() {
    let a = vec![sig(0, 100, ONE, None), sig(1, 110, 0, None)];
    let b = vec![sig(0, 50, ONE / 2, None), sig(1, 45, 0, None)];
    let c = vec![sig(0, 50, 0, None), sig(1, 99, 0, None)];
    let (total, weighted, count) = day_totals(&vec![a, b, c], 1);
    assert_eq!(total, 3 * ONE / 2);
    assert_eq!(weighted, ONE * (FINE / 10) - (ONE / 2) * (FINE / 10));
    assert_eq!(count, 2);
}

#[test]
fn baseline_bear_state_needs_both_conditions() {
    assert!(baseline_is_bear(&base(0, 90, Some(95), Some(100))));
    assert!(!baseline_is_bear(&base(0, 100, Some(95), Some(100))));
    assert!(!baseline_is_bear(&base(0, 90, Some(100), Some(100))));
    assert!(!baseline_is_bear(&base(0, 90, None, Some(100))));
    assert!(!baseline_is_bear(&base(0, 90, Some(95), None)));
}

#[test]
fn hedge_shorts_the_baseline_after_a_bear_day() {
    let baseline = vec![base(0, 1000, Some(1050), Some(1100)), base(1, 900, Some(1000), Some(1050)), base(2, 990, Some(2000), Some(1000))];
    // hedge 0.3: the baseline falls 10% on day 1, rises 10% on day 2
    let out = simulate_portfolio(&vec![], &baseline, 30_000_000);
    assert_eq!(out[1].daily_return, 3 * FINE / 100);
    assert_eq!(out[1].equity, 103 * FINE / 100);
    assert_eq!(out[2].daily_return, -3 * FINE / 100);
    assert_eq!(out[2].equity, 9_991 * FINE / 10_000);
    assert_eq!(out[2].active_position_count, 0);
}

#[test]
fn hedge_is_off_without_a_weight_or_a_bear_day() {
    let bear = vec![base(0, 1000, Some(1050), Some(1100)), base(1, 900, None, None)];
    assert_eq!(simulate_portfolio(&vec![], &bear, 0)[1].daily_return, 0);
    assert_eq!(simulate_portfolio(&vec![], &bear, -30_000_000)[1].daily_return, 0);
    let bull = vec![base(0, 1000, Some(1050), Some(900)), base(1, 900, None, None)];
    assert_eq!(simulate_portfolio(&vec![], &bull, 30_000_000)[1].daily_return, 0);
}

#[test]
fn equity_does_not_fall_while_returns_are_not_negative() {
    let prices = [100, 101, 101, 105, 110, 110, 120];
    let a: Vec<DailySignal> = prices.iter().enumerate().map(|(i, p)| sig(i as i32, *p, ONE, None)).collect();
    let out = simulate_portfolio(&vec![a], &flat_base(7), 0);
    assert_eq!(out[0].equity, FINE);
    for w in out.windows(2) {
        assert!(w[1].daily_return >= 0);
        assert!(w[1].equity >= w[0].equity);
    }
}

#[test]
fn equity_saturates_at_its_limit() {
    // ten thousandfold every day
    let mut price: i128 = 1;
    let mut a = vec![];
    for i in 0..5 {
        a.push(sig(i, price, ONE, None));
        price *= 10_000;
    }
    let out = simulate_portfolio(&vec![a], &flat_base(5), 0);
    assert_eq!(out[1].daily_return, 9_999 * FINE);
    assert_eq!(out[1].equity, 10_000 * FINE);
    assert_eq!(out[2].equity, 100_000_000 * FINE);
    assert_eq!(out[3].equity, 10_000_000_000 * FINE);
    assert_eq!(out[4].equity, 10_000_000_000 * FINE);
    let mut b = vec![];
    let mut price: i128 = 1;
    for i in 0..3 {
        b.push(sig(i, price, ONE, None));
        price *= 1_000_000_000;
    }
    let out = simulate_portfolio(&vec![b], &flat_base(3), 0);
    // the return saturates at ten million
    assert_eq!(out[1].daily_return, 10_000_000 * FINE);
    assert_eq!(out[1].equity, 10_000_001 * FINE);
    assert_eq!(out[2].equity, 10_000_000_000 * FINE);
}

#[test]
fn metrics_of_an_equity_curve() {
    let states = vec![
        PortfolioState { date: 0, equity: FINE, daily_return: 0, active_position_count: 0 },
        PortfolioState { date: 1, equity: 102_000_000 * ONE, daily_return: 2_000_000 * ONE, active_position_count: 1 },
        PortfolioState { date: 2, equity: 100_980_000 * ONE, daily_return: -1_000_000 * ONE, active_position_count: 1 },
        PortfolioState { date: 3, equity: 100_980_000 * ONE, daily_return: 0, active_position_count: 0 },
        PortfolioState { date: 4, equity: 104_009_400 * ONE, daily_return: 3_000_000 * ONE, active_position_count: 1 },
        PortfolioState { date: 5, equity: 101_929_212 * ONE, daily_return: -2_000_000 * ONE, active_position_count: 1 },
    ];
    let m = portfolio_metrics(&states);
    assert_eq!(m.days, 6);
    assert_eq!(m.total_return, 1_929_212 * ONE);
    // the daily ratio 0.21004202 times the root of 365.25
    assert_eq!(m.sharpe, 401_422_118);
    assert_eq!(m.max_drawdown, 2_000_000);
    assert_eq!(m.win_rate, ONE / 2);
}

#[test]
fn metrics_of_no_days() {
    let m = portfolio_metrics(&vec![]);
    assert_eq!(m, PortfolioMetrics { days: 1, total_return: 0, sharpe: 0, max_drawdown: 0, win_rate: 0 });
}

#[test]
fn inputs_of_a_simulation_can_be_tested() {
    let a = vec![sig(0, 100, ONE, None), sig(1, 110, ONE, None)];
    assert!(crypto_strategy::portfolio::are_inputs_ok(&vec![a.clone()], &flat_base(2)));
    assert!(!crypto_strategy::portfolio::are_inputs_ok(&vec![a.clone()], &flat_base(3)));
    let bad = vec![sig(0, 100, ONE, None), sig(1, 0, ONE, None)];
    assert!(!crypto_strategy::portfolio::are_inputs_ok(&vec![a.clone(), bad], &flat_base(2)));
    let heavy = vec![sig(0, 100, ONE + 1, None), sig(1, 100, ONE, None)];
    assert!(!crypto_strategy::portfolio::are_inputs_ok(&vec![heavy], &flat_base(2)));
    assert!(!crypto_strategy::portfolio::are_inputs_ok(&vec![], &vec![base(0, 0, None, None)]));
    assert!(crypto_strategy::portfolio::are_inputs_ok(&vec![], &vec![]));
    let ok = PortfolioState { date: 0, equity: FINE, daily_return: 0, active_position_count: 0 };
    assert!(crypto_strategy::portfolio::is_curve_ok(&vec![ok]));
    let wild = PortfolioState { equity: 10_000_000_000 * FINE + 1, ..ok };
    assert!(!crypto_strategy::portfolio::is_curve_ok(&vec![ok, wild]));
    let jumpy = PortfolioState { daily_return: -10_000_000 * FINE - 1, ..ok };
    assert!(!crypto_strategy::portfolio::is_curve_ok(&vec![jumpy]));
}

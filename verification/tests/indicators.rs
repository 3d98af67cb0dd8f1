use crypto_strategy::fixed::is_all_within;
use crypto_strategy::indicators::{
    is_all_opt_within, rolling_atr, rolling_ma, rolling_std, true_range,
};

const ONE: i128 = 100_000_000;

#[test]
fn rolling_ma_is_undefined_until_the_window_fills() {
    let x: Vec<i128> = vec![10, 20, 30, 40, 50];
    let out = rolling_ma(&x, 3);
    assert_eq!(out, vec![None, None, Some(20), Some(30), Some(40)]);
}

#[test]
fn rolling_ma_window_one_is_identity() {
    let x: Vec<i128> = vec![7, -3, 0, 12];
    let out = rolling_ma(&x, 1);
    assert_eq!(out, vec![Some(7), Some(-3), Some(0), Some(12)]);
}

#[test]
fn rolling_ma_full_window_has_one_point() {
    let x: Vec<i128> = vec![1, 2, 3, 6];
    let out = rolling_ma(&x, 4);
    assert_eq!(out, vec![None, None, None, Some(3)]);
}

#[test]
fn rolling_ma_window_zero_is_never_defined() {
    let x: Vec<i128> = vec![1, 2, 3];
    assert_eq!(rolling_ma(&x, 0), vec![None, None, None]);
}

#[test]
fn rolling_ma_rounds_down() {
    let x: Vec<i128> = vec![1, 2, -1, -2];
    // means: 3/2 -> 1, 1/2 -> 0, -3/2 -> -2
    assert_eq!(rolling_ma(&x, 2), vec![None, Some(1), Some(0), Some(-2)]);
}

#[test]
fn rolling_ma_longer_than_input_is_never_defined() {
    let x: Vec<i128> = vec![1, 2];
    assert_eq!(rolling_ma(&x, 3), vec![None, None]);
}

#[test]
fn true_range_is_the_largest_distance() {
    assert_eq!(true_range(110, 100, 105), 10);
    assert_eq!(true_range(110, 100, 90), 20);
    assert_eq!(true_range(110, 100, 125), 25);
}

#[test]
fn rolling_atr_degrades_without_high_and_low() {
    let high = vec![Some(12), None, Some(15), Some(14)];
    let low = vec![Some(10), None, Some(11), None];
    let close: Vec<i128> = vec![11, 13, 12, 16];
    // true ranges: |12-10| = 2, |13-11| = 2, max(4, |15-13|, |11-13|) = 4, |16-12| = 4
    let out = rolling_atr(&high, &low, &close, 2);
    assert_eq!(out, vec![None, Some(2), Some(3), Some(4)]);
}

#[test]
fn rolling_atr_day_zero_without_range_is_zero() {
    let high = vec![None, None];
    let low = vec![None, None];
    let close: Vec<i128> = vec![11, 14];
    assert_eq!(rolling_atr(&high, &low, &close, 1), vec![Some(0), Some(3)]);
}

#[test]
fn rolling_std_is_the_population_deviation() {
    // 2%, 4%, 4%, 4%, 5%, 5%, 7%, 9%: mean 5%, population deviation 2%
    let x: Vec<i128> = vec![2, 4, 4, 4, 5, 5, 7, 9].into_iter().map(|p| p * ONE / 100).collect();
    let out = rolling_std(&x, 8);
    assert_eq!(out[7], Some(2 * ONE / 100));
    assert_eq!(out[6], None);
}

#[test]
fn rolling_std_rounds_down() {
    // values 0 and 3: mean 1.5, deviation 1.5 -> 1
    let x: Vec<i128> = vec![0, 3];
    assert_eq!(rolling_std(&x, 2), vec![None, Some(1)]);
}

#[test]
fn rolling_std_of_an_empty_window_is_zero() {
    let x: Vec<i128> = vec![5, 9];
    assert_eq!(rolling_std(&x, 0), vec![Some(0), Some(0)]);
}

#[test]
fn bounds_of_inputs_can_be_tested() {
    assert!(is_all_within(&[1, -5, 5], 5));
    assert!(!is_all_within(&[1, -6, 5], 5));
    assert!(is_all_within(&[], 0));
    assert!(is_all_opt_within(&[Some(1), None, Some(-5)], 5));
    assert!(!is_all_opt_within(&[Some(1), None, Some(6)], 5));
}

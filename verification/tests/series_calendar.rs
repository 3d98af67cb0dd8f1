use crypto_strategy::calendar::{align, intersect_dates, intersect_sorted, sufficient_history, AlignError};
use crypto_strategy::series::{MalformedInputSeries, Row, Series};

fn series(dates: &[i32]) -> Series {
    let n = dates.len();
    Series::new(dates.to_vec(), vec![100; n], vec![None; n], vec![None; n]).unwrap()
}

fn run(from: i32, to: i32) -> Vec<i32> {
    (from..to).collect()
}

#[test]
fn series_new_accepts_ordered_rows_in_range() {
    let s = Series::new(vec![1, 2, 5], vec![10, 11, 12], vec![Some(12), None, Some(13)], vec![Some(9), None, None]).unwrap();
    assert_eq!(s.dates, vec![1, 2, 5]);
    assert_eq!(s.close, vec![10, 11, 12]);
    assert_eq!(s.high, vec![Some(12), None, Some(13)]);
    assert_eq!(s.low, vec![Some(9), None, None]);
    assert_eq!(s.len(), 3);
}

#[test]
fn series_new_rejects_columns_of_different_length() {
    let r = Series::new(vec![1, 2], vec![10], vec![None, None], vec![None, None]);
    assert_eq!(r.err(), Some(MalformedInputSeries::LengthMismatch));
}

#[test]
fn series_new_rejects_too_many_days() {
    let n = 10_001;
    let r = Series::new((0..n as i32).collect(), vec![1; n], vec![None; n], vec![None; n]);
    assert_eq!(r.err(), Some(MalformedInputSeries::TooLong));
}

#[test]
fn series_new_rejects_a_repeated_date() {
    let r = Series::new(vec![1, 2, 2], vec![10, 10, 10], vec![None; 3], vec![None; 3]);
    assert_eq!(r.err(), Some(MalformedInputSeries::DateOrder { index: 2 }));
}

#[test]
fn series_new_rejects_a_date_out_of_order() {
    let r = Series::new(vec![5, 3], vec![10, 10], vec![None; 2], vec![None; 2]);
    assert_eq!(r.err(), Some(MalformedInputSeries::DateOrder { index: 1 }));
}

#[test]
fn series_new_rejects_a_price_that_is_not_positive() {
    let r = Series::new(vec![1, 2], vec![10, 0], vec![None; 2], vec![None; 2]);
    assert_eq!(r.err(), Some(MalformedInputSeries::PriceOutOfRange { index: 1 }));
    let r = Series::new(vec![1, 2], vec![10, 10], vec![Some(-1), None], vec![None; 2]);
    assert_eq!(r.err(), Some(MalformedInputSeries::PriceOutOfRange { index: 0 }));
}

#[test]
fn series_new_reports_the_first_bad_row() {
    let r = Series::new(vec![1, 2, 2], vec![10, 0, 10], vec![None; 3], vec![None; 3]);
    assert_eq!(r.err(), Some(MalformedInputSeries::PriceOutOfRange { index: 1 }));
}

#[test]
fn series_from_rows_copies_the_columns() {
    let rows = vec![
        Row { date: 10, open: Some(5), high: Some(9), low: Some(4), close: 7 },
        Row { date: 11, open: None, high: None, low: None, close: 8 },
    ];
    let s = Series::from_rows(&rows).unwrap();
    assert_eq!(s.dates, vec![10, 11]);
    assert_eq!(s.close, vec![7, 8]);
    assert_eq!(s.high, vec![Some(9), None]);
    assert_eq!(s.low, vec![Some(4), None]);
}

#[test]
fn intersect_sorted_keeps_shared_elements_in_order() {
    assert_eq!(intersect_sorted(&vec![1, 3, 5, 7, 9], &vec![2, 3, 4, 7, 10]), vec![3, 7]);
    assert_eq!(intersect_sorted(&vec![], &vec![1, 2]), Vec::<i32>::new());
    assert_eq!(intersect_sorted(&vec![1, 2], &vec![3, 4]), Vec::<i32>::new());
}

#[test]
fn intersect_dates_of_no_series_is_empty() {
    assert_eq!(intersect_dates(&[]), Vec::<i32>::new());
}

#[test]
fn intersect_dates_of_one_series_is_its_dates() {
    assert_eq!(intersect_dates(&[series(&[3, 4, 8])]), vec![3, 4, 8]);
}

#[test]
fn intersect_dates_is_a_subset_of_every_input_and_drops_no_shared_date() {
    let a = series(&[1, 2, 3, 4, 5, 6]);
    let b = series(&[2, 3, 5, 6, 7]);
    let c = series(&[0, 2, 5, 6, 9]);
    let common = intersect_dates(&[a.clone(), b.clone(), c.clone()]);
    assert_eq!(common, vec![2, 5, 6]);
    for d in &common {
        assert!(a.dates.contains(d) && b.dates.contains(d) && c.dates.contains(d));
    }
    for d in 0..10 {
        if a.dates.contains(&d) && b.dates.contains(&d) && c.dates.contains(&d) {
            assert!(common.contains(&d));
        }
    }
}

#[test]
fn align_fails_on_a_calendar_shorter_than_ma_long_plus_ten() {
    let a = series(&run(0, 20));
    let b = series(&run(4, 30));
    // 16 shared dates, 17 needed
    let r = align(&[a, b], 7);
    assert_eq!(
        r,
        Err(AlignError::InsufficientHistory { required: 17, actual: 16, series: 2, first_date: Some(4), last_date: Some(19) })
    );
    let apart = align(&[series(&run(0, 20)), series(&run(30, 60))], 7);
    assert_eq!(
        apart,
        Err(AlignError::InsufficientHistory { required: 17, actual: 0, series: 2, first_date: None, last_date: None })
    );
}

#[test]
fn align_returns_the_shared_calendar() {
    let a = series(&run(0, 20));
    let b = series(&run(3, 30));
    assert_eq!(align(&[a, b], 7), Ok(run(3, 20)));
}

#[test]
fn sufficient_history_leaves_out_short_series() {
    let all = vec![series(&run(0, 20)), series(&run(0, 16)), series(&run(0, 17)), series(&run(5, 8))];
    assert_eq!(sufficient_history(&all, 17), vec![0, 2]);
}

#[test]
fn align_to_restricts_a_series_to_the_calendar() {
    let s = Series::new(vec![1, 2, 3, 4], vec![10, 20, 30, 40], vec![Some(11), None, Some(31), None], vec![None, Some(19), None, None]).unwrap();
    let on = s.align_to(&vec![2, 4]).unwrap();
    assert_eq!(on.dates, vec![2, 4]);
    assert_eq!(on.close, vec![20, 40]);
    assert_eq!(on.high, vec![None, None]);
    assert_eq!(on.low, vec![Some(19), None]);
}

#[test]
fn align_to_needs_every_date_of_the_calendar() {
    let s = series(&[1, 2, 4]);
    assert!(s.align_to(&vec![2, 3]).is_none());
    assert!(s.align_to(&vec![5]).is_none());
    assert!(s.align_to(&vec![0, 1]).is_none());
    assert!(s.align_to(&vec![]).is_some());
}

#[test]
fn the_invariant_of_a_series_can_be_tested() {
    let mut s = series(&[1, 2, 3]);
    assert!(s.is_wf());
    s.close[1] = 0;
    assert!(!s.is_wf());
    s.close[1] = 5;
    s.dates[2] = 2;
    assert!(!s.is_wf());
    s.dates[2] = 9;
    s.high.pop();
    assert!(!s.is_wf());
}

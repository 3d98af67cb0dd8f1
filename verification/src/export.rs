//! The records of the tables that the pipeline writes, field by field.

use vstd::prelude::*;
use vstd::string::StringExecFns;
use crate::dates::{date_text, format_date, DAY_LIMIT};
use crate::ohlc::DailyBar;
use crate::portfolio::{PortfolioMetrics, PortfolioState};
use crate::signals::DailySignal;
use crate::text::{
    decimal_text, fine_string, fine_text, natural_text, push_decimal, push_fine, push_natural, texts,
    TEXT_LIMIT,
};

verus! {

/// The value can be written as a decimal.
pub open spec fn writable(value: i128) -> bool {
    -TEXT_LIMIT <= value <= TEXT_LIMIT
}

/// The value, where present, can be written as a decimal.
pub open spec fn opt_writable(value: Option<i128>) -> bool {
    value matches Some(v) ==> writable(v)
}

/// The text of an optional value with `places` decimal places; empty
/// where the value is absent.
pub open spec fn optional_text(value: Option<i128>, places: nat) -> Seq<char> {
    match value {
        Some(v) => decimal_text(v as int, places),
        None => Seq::empty(),
    }
}

/// The text of a truth value.
pub open spec fn bool_text(b: bool) -> Seq<char> {
    if b {
        "true"@
    } else {
        "false"@
    }
}

/// A relative strength in units of `1 / RS_SCALE` as a ratio in units of
/// `1 / SCALE`, rounded down.
pub open spec fn rs_as_ratio(rs: Option<i128>) -> Option<i128> {
    match rs {
        Some(v) => Some((v / 100_000_000) as i128),
        None => None,
    }
}

/// The decimal text of a value.
pub fn decimal_string(value: i128, places: u8) -> (s: String)
    requires
        writable(value),
        places <= 8,
    ensures
        s@ == decimal_text(value as int, places as nat),
{
    let mut s = String::new();
    push_decimal(&mut s, value, places);
    proof {
        assert(Seq::<char>::empty() + decimal_text(value as int, places as nat) =~= decimal_text(
            value as int,
            places as nat,
        ));
    }
    s
}

/// The decimal text of an optional value.
pub fn optional_string(value: Option<i128>, places: u8) -> (s: String)
    requires
        opt_writable(value),
        places <= 8,
    ensures
        s@ == optional_text(value, places as nat),
{
    match value {
        Some(v) => decimal_string(v, places),
        None => String::new(),
    }
}

/// The decimal text of a natural number.
pub fn natural_string(n: usize) -> (s: String)
    ensures
        s@ == natural_text(n as nat),
{
    let mut s = String::new();
    push_natural(&mut s, n as u128);
    proof {
        assert(Seq::<char>::empty() + natural_text(n as nat) =~= natural_text(n as nat));
    }
    s
}

/// The text of a truth value.
pub fn bool_string(b: bool) -> (s: String)
    ensures
        s@ == bool_text(b),
{
    if b {
        "true".to_owned()
    } else {
        "false".to_owned()
    }
}

/// A relative strength as a ratio.
pub fn to_ratio(rs: Option<i128>) -> (r: Option<i128>)
    ensures
        r == rs_as_ratio(rs),
{
    match rs {
        Some(v) => Some(crate::fixed::floor_div(v, 100_000_000)),
        None => None,
    }
}

/// Every number of the signal can be written, and its date is within
/// `DAY_LIMIT`.
pub open spec fn signal_writable(sig: DailySignal) -> bool {
    &&& -DAY_LIMIT <= sig.date <= DAY_LIMIT
    &&& writable(sig.price)
    &&& opt_writable(sig.ma_short)
    &&& opt_writable(sig.ma_long)
    &&& opt_writable(rs_as_ratio(sig.rs))
    &&& opt_writable(rs_as_ratio(sig.rs_ma_short))
    &&& opt_writable(rs_as_ratio(sig.rs_ma_long))
    &&& writable(sig.raw_weight)
    &&& opt_writable(sig.stop_level)
}

/// The record of a signal: date, close, the two averages, relative
/// strength and its two averages, the three signals, the score, the raw
/// weight and the stop level. Prices have eight decimal places, the raw
/// weight four; what is undefined is left empty.
pub open spec fn signal_fields(sig: DailySignal) -> Seq<Seq<char>> {
    seq![
        date_text(sig.date),
        decimal_text(sig.price as int, 8),
        optional_text(sig.ma_short, 8),
        optional_text(sig.ma_long, 8),
        optional_text(rs_as_ratio(sig.rs), 8),
        optional_text(rs_as_ratio(sig.rs_ma_short), 8),
        optional_text(rs_as_ratio(sig.rs_ma_long), 8),
        bool_text(sig.trend_bull),
        bool_text(sig.mom_bull),
        bool_text(sig.rs_bull),
        natural_text(sig.score as nat),
        decimal_text(sig.raw_weight as int, 4),
        optional_text(sig.stop_level, 8),
    ]
}

/// Whether a value can be written as a decimal.
pub fn is_writable(value: i128) -> (b: bool)
    ensures
        b == writable(value),
{
    -TEXT_LIMIT <= value && value <= TEXT_LIMIT
}

/// Whether an optional value can be written as a decimal.
pub fn is_opt_writable(value: Option<i128>) -> (b: bool)
    ensures
        b == opt_writable(value),
{
    match value {
        Some(v) => is_writable(v),
        None => true,
    }
}

/// The record of a signal; `None` where a number of it cannot be written.
pub fn signal_record(sig: &DailySignal) -> (record: Option<Vec<String>>)
    ensures
        record is Some <==> signal_writable(*sig),
        record matches Some(r) ==> texts(r@) == signal_fields(*sig),
{
    let rs = to_ratio(sig.rs);
    let rs_short = to_ratio(sig.rs_ma_short);
    let rs_long = to_ratio(sig.rs_ma_long);
    if !(is_writable(sig.price) && is_opt_writable(sig.ma_short) && is_opt_writable(sig.ma_long)
        && is_opt_writable(rs) && is_opt_writable(rs_short) && is_opt_writable(rs_long)
        && is_writable(sig.raw_weight) && is_opt_writable(sig.stop_level)) {
        return None;
    }
    let date = match format_date(sig.date) {
        Some(d) => d,
        None => {
            return None;
        },
    };
    let mut r: Vec<String> = Vec::new();
    r.push(date);
    r.push(decimal_string(sig.price, 8));
    r.push(optional_string(sig.ma_short, 8));
    r.push(optional_string(sig.ma_long, 8));
    r.push(optional_string(rs, 8));
    r.push(optional_string(rs_short, 8));
    r.push(optional_string(rs_long, 8));
    r.push(bool_string(sig.trend_bull));
    r.push(bool_string(sig.mom_bull));
    r.push(bool_string(sig.rs_bull));
    r.push(natural_string(sig.score));
    r.push(decimal_string(sig.raw_weight, 4));
    r.push(optional_string(sig.stop_level, 8));
    proof {
        assert(texts(r@) =~= signal_fields(*sig));
    }
    Some(r)
}

/// The names of the fields of a record of a signal.
pub fn signal_header() -> (header: Vec<String>)
    ensures
        texts(header@) == seq![
            "date"@,
            "close"@,
            "ma_short"@,
            "ma_long"@,
            "rs"@,
            "rs_ma_short"@,
            "rs_ma_long"@,
            "trend_bull"@,
            "mom_bull"@,
            "rs_bull"@,
            "score"@,
            "raw_weight"@,
            "stop_level"@,
        ],
{
    let mut h: Vec<String> = Vec::new();
    h.push("date".to_owned());
    h.push("close".to_owned());
    h.push("ma_short".to_owned());
    h.push("ma_long".to_owned());
    h.push("rs".to_owned());
    h.push("rs_ma_short".to_owned());
    h.push("rs_ma_long".to_owned());
    h.push("trend_bull".to_owned());
    h.push("mom_bull".to_owned());
    h.push("rs_bull".to_owned());
    h.push("score".to_owned());
    h.push("raw_weight".to_owned());
    h.push("stop_level".to_owned());
    proof {
        assert(texts(h@) =~= seq![
            "date"@,
            "close"@,
            "ma_short"@,
            "ma_long"@,
            "rs"@,
            "rs_ma_short"@,
            "rs_ma_long"@,
            "trend_bull"@,
            "mom_bull"@,
            "rs_bull"@,
            "score"@,
            "raw_weight"@,
            "stop_level"@,
        ]);
    }
    h
}

/// The record of a day of the equity curve: date, equity and return with
/// eight decimal places, the number of positions, and the close of the
/// baseline with two decimal places.
pub open spec fn equity_fields(state: PortfolioState, baseline_close: i128) -> Seq<Seq<char>> {
    seq![
        date_text(state.date),
        fine_text(state.equity as int, 8),
        fine_text(state.daily_return as int, 8),
        natural_text(state.active_position_count as nat),
        decimal_text(baseline_close as int, 2),
    ]
}

/// The record of a day of the equity curve; `None` where a number of it
/// cannot be written.
pub fn equity_record(state: &PortfolioState, baseline_close: i128) -> (record: Option<Vec<String>>)
    ensures
        record is Some <==> -DAY_LIMIT <= state.date <= DAY_LIMIT && writable(state.equity)
            && writable(state.daily_return) && writable(baseline_close),
        record matches Some(r) ==> texts(r@) == equity_fields(*state, baseline_close),
{
    if !(is_writable(state.equity) && is_writable(state.daily_return) && is_writable(
        baseline_close,
    )) {
        return None;
    }
    let date = match format_date(state.date) {
        Some(d) => d,
        None => {
            return None;
        },
    };
    let mut r: Vec<String> = Vec::new();
    r.push(date);
    r.push(fine_string(state.equity, 8));
    r.push(fine_string(state.daily_return, 8));
    r.push(natural_string(state.active_position_count));
    r.push(decimal_string(baseline_close, 2));
    proof {
        assert(texts(r@) =~= equity_fields(*state, baseline_close));
    }
    Some(r)
}

/// The record of a candle: date, then open, high, low and close with
/// eight decimal places.
pub open spec fn bar_fields(bar: DailyBar) -> Seq<Seq<char>> {
    seq![
        date_text(bar.date),
        decimal_text(bar.open as int, 8),
        decimal_text(bar.high as int, 8),
        decimal_text(bar.low as int, 8),
        decimal_text(bar.close as int, 8),
    ]
}

/// The record of a candle; `None` where a number of it cannot be written.
pub fn bar_record(bar: &DailyBar) -> (record: Option<Vec<String>>)
    ensures
        record is Some <==> -DAY_LIMIT <= bar.date <= DAY_LIMIT && writable(bar.open) && writable(
            bar.high,
        ) && writable(bar.low) && writable(bar.close),
        record matches Some(r) ==> texts(r@) == bar_fields(*bar),
{
    if !(is_writable(bar.open) && is_writable(bar.high) && is_writable(bar.low) && is_writable(
        bar.close,
    )) {
        return None;
    }
    let date = match format_date(bar.date) {
        Some(d) => d,
        None => {
            return None;
        },
    };
    let mut r: Vec<String> = Vec::new();
    r.push(date);
    r.push(decimal_string(bar.open, 8));
    r.push(decimal_string(bar.high, 8));
    r.push(decimal_string(bar.low, 8));
    r.push(decimal_string(bar.close, 8));
    proof {
        assert(texts(r@) =~= bar_fields(*bar));
    }
    Some(r)
}

/// The statistics of a run as text, one per line. The growth rate per
/// year is handed in as text.
pub open spec fn metrics_text(m: PortfolioMetrics, growth: Seq<char>) -> Seq<char> {
    "Days: "@ + natural_text(m.days as nat) + "\nTotal Return: "@ + fine_text(
        m.total_return * 100,
        2,
    ) + "%\nCAGR: "@ + growth + "%\nSharpe (ann.): "@ + decimal_text(m.sharpe as int, 2)
        + "\nMax Drawdown: "@ + decimal_text(m.max_drawdown * 100, 2) + "%\nWin Rate: "@
        + decimal_text(m.win_rate * 100, 2) + "%\n"@
}

/// The statistics of a run as text; `None` where a number of them cannot
/// be written.
pub fn metrics_summary(m: &PortfolioMetrics, growth: &str) -> (t: Option<String>)
    ensures
        t is Some <==> writable(m.total_return) && writable(m.sharpe) && writable(m.max_drawdown)
            && writable(m.win_rate),
        t matches Some(s) ==> s@ == metrics_text(*m, growth@),
{
    if !(is_writable(m.total_return) && is_writable(m.sharpe) && is_writable(m.max_drawdown)
        && is_writable(m.win_rate)) {
        return None;
    }
    let mut t = "Days: ".to_owned();
    push_natural(&mut t, m.days as u128);
    t.append("\nTotal Return: ");
    push_fine(&mut t, m.total_return * 100, 2);
    t.append("%\nCAGR: ");
    t.append(growth);
    t.append("%\nSharpe (ann.): ");
    push_decimal(&mut t, m.sharpe, 2);
    t.append("\nMax Drawdown: ");
    push_percent(&mut t, m.max_drawdown, 2);
    t.append("%\nWin Rate: ");
    push_percent(&mut t, m.win_rate, 2);
    t.append("%\n");
    Some(t)
}

/// Appends a ratio as a percentage with `places` decimal places.
pub fn push_percent(s: &mut String, value: i128, places: u8)
    requires
        writable(value),
        places <= 6,
    ensures
        final(s)@ == old(s)@ + decimal_text(value * 100, places as nat),
{
    let magnitude: u128 = if value < 0 {
        (-value) as u128
    } else {
        value as u128
    };
    // a percentage with `places` places is the ratio with two places more,
    // its point moved
    proof {
        crate::text::lemma_powers_of_ten();
    }
    let unit = crate::text::power_of_ten(places);
    let wide = crate::text::power_of_ten(places + 2);
    assert(wide == 100 * unit);
    assert(magnitude * wide <= TEXT_LIMIT * 100_000_000) by (nonlinear_arith)
        requires
            0 <= magnitude <= TEXT_LIMIT,
            0 <= wide <= 100_000_000,
    ;
    let rounded: u128 = (magnitude * wide + 50_000_000) / 100_000_000;
    proof {
        assert(magnitude * 100 * unit == magnitude * wide) by (nonlinear_arith)
            requires
                wide == 100 * unit,
        ;
        assert(crate::text::rounded_magnitude(value * 100, places as nat) == rounded);
    }
    if value < 0 {
        s.append("-");
    }
    push_natural(s, rounded / unit);
    if places > 0 {
        s.append(".");
        crate::text::push_padded(s, rounded % unit, places);
    }
    proof {
        assert(final(s)@ =~= old(s)@ + decimal_text(value * 100, places as nat));
    }
}

} // verus!

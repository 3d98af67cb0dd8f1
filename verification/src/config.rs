//! The arguments of the export and of the backtest, with their defaults.
//! Paths are texts.

use vstd::prelude::*;

use crate::signals::{SignalParams, MULTIPLIER_LIMIT};

verus! {

/// The arguments of the export of daily candles; what is absent takes its
/// default.
#[derive(Clone, Debug, Default)]
pub struct OhlcArgs {
    /// Directory of the tables.
    pub out: Option<String>,
    /// Key of the market-data service.
    pub api_key: Option<String>,
    /// Number of coins by market capitalisation, the baseline not counted.
    pub top_n: Option<usize>,
    /// Quote currency.
    pub vs: Option<String>,
    /// First day, as year-month-day.
    pub start: Option<String>,
    /// Last day, as year-month-day.
    pub end: Option<String>,
    /// Number of requests in flight.
    pub concurrency: Option<usize>,
    /// Milliseconds between requests.
    pub request_delay_ms: Option<u64>,
    /// Whether a manifest of the coins is written.
    pub write_manifest: Option<bool>,
    /// Whether only the days missing from each table are asked for.
    pub resume: Option<bool>,
    /// Time of day of a daily run, as hour:minute.
    pub daily_at: Option<String>,
    /// Path of a lock file against concurrent runs.
    pub lock_file: Option<String>,
    /// Whether the baseline is left out.
    pub skip_btc: Option<bool>,
}

/// The arguments of the backtest; what is absent takes its default.
#[derive(Clone, Debug, Default)]
pub struct StrategyArgs {
    /// Path of the table of the baseline.
    pub btc: Option<String>,
    /// Paths of the tables of the assets.
    pub assets: Option<Vec<String>>,
    /// Directory of the results.
    pub out: Option<String>,
    pub ma_short: Option<usize>,
    pub ma_long: Option<usize>,
    pub min_signals: Option<usize>,
    pub short_alts: Option<bool>,
    /// Hedge weight, as a ratio.
    pub btc_hedge: Option<i128>,
    pub stop_lookback: Option<usize>,
    /// Multiple of the average true range, as a ratio.
    pub atr_mult: Option<i128>,
    /// Multiple of the return deviation, as a ratio.
    pub vol_mult: Option<i128>,
}

/// The text of an optional string, or `default` where it is absent.
pub open spec fn text_or(o: Option<String>, default: Seq<char>) -> Seq<char> {
    match o {
        Some(s) => s@,
        None => default,
    }
}

/// The value of an option, or `default` where it is absent.
pub open spec fn value_or<T>(o: Option<T>, default: T) -> T {
    match o {
        Some(v) => v,
        None => default,
    }
}

/// The texts of optional strings agree.
pub open spec fn same_text(a: Option<String>, b: Option<String>) -> bool {
    match (a, b) {
        (Some(x), Some(y)) => x@ == y@,
        (None, None) => true,
        _ => false,
    }
}

/// What the arguments of the export are once the defaults are filled in:
/// directory `./out`, 100 coins, currency `usd`, 6 requests in flight, 250
/// milliseconds between requests, a manifest, no resuming, the baseline
/// included. The other arguments stay as they are.
pub open spec fn ohlc_defaults_applied(before: OhlcArgs, after: OhlcArgs) -> bool {
    &&& after.out matches Some(s) && s@ == text_or(before.out, "./out"@)
    &&& same_text(after.api_key, before.api_key)
    &&& after.top_n == Some(value_or(before.top_n, 100usize))
    &&& after.vs matches Some(s) && s@ == text_or(before.vs, "usd"@)
    &&& same_text(after.start, before.start)
    &&& same_text(after.end, before.end)
    &&& after.concurrency == Some(value_or(before.concurrency, 6usize))
    &&& after.request_delay_ms == Some(value_or(before.request_delay_ms, 250u64))
    &&& after.write_manifest == Some(value_or(before.write_manifest, true))
    &&& after.resume == Some(value_or(before.resume, false))
    &&& same_text(after.daily_at, before.daily_at)
    &&& same_text(after.lock_file, before.lock_file)
    &&& after.skip_btc == Some(value_or(before.skip_btc, false))
}

/// Fills in the defaults of the export.
pub fn apply_ohlc_defaults(args: &mut OhlcArgs)
    ensures
        ohlc_defaults_applied(*old(args), *final(args)),
{
    if args.out.is_none() {
        args.out = Some("./out".to_owned());
    }
    if args.top_n.is_none() {
        args.top_n = Some(100);
    }
    if args.vs.is_none() {
        args.vs = Some("usd".to_owned());
    }
    if args.concurrency.is_none() {
        args.concurrency = Some(6);
    }
    if args.request_delay_ms.is_none() {
        args.request_delay_ms = Some(250);
    }
    if args.write_manifest.is_none() {
        args.write_manifest = Some(true);
    }
    if args.resume.is_none() {
        args.resume = Some(false);
    }
    if args.skip_btc.is_none() {
        args.skip_btc = Some(false);
    }
}

/// The value of the portfolio that plans are sized for where none is
/// given: one hundred thousand.
pub const DEFAULT_PORTFOLIO_VALUE: i128 = 10_000_000_000_000;

/// The default hedge weight: 0.3.
pub const DEFAULT_HEDGE: i128 = 30_000_000;

/// The default multiple of the average true range: 3.
pub const DEFAULT_ATR_MULT: i128 = 300_000_000;

/// The default multiple of the return deviation: 2.5.
pub const DEFAULT_VOL_MULT: i128 = 250_000_000;

/// What the arguments of the backtest are once the defaults are filled in:
/// baseline `./out/BTC.csv`, results in `./out/signals`, averages over 3 and
/// 7 days, 2 signals for a half weight, no short selling, a hedge of 0.3, a
/// lookback of 14 days for stops, 3 average true ranges or 2.5 deviations
/// below the close. The list of assets stays as it is.
pub open spec fn strategy_defaults_applied(before: StrategyArgs, after: StrategyArgs) -> bool {
    &&& after.btc matches Some(s) && s@ == text_or(before.btc, "./out/BTC.csv"@)
    &&& after.assets == before.assets
    &&& after.out matches Some(s) && s@ == text_or(before.out, "./out/signals"@)
    &&& after.ma_short == Some(value_or(before.ma_short, 3usize))
    &&& after.ma_long == Some(value_or(before.ma_long, 7usize))
    &&& after.min_signals == Some(value_or(before.min_signals, DEFAULT_MIN_SIGNALS))
    &&& after.short_alts == Some(value_or(before.short_alts, false))
    &&& after.btc_hedge == Some(value_or(before.btc_hedge, DEFAULT_HEDGE))
    &&& after.stop_lookback == Some(value_or(before.stop_lookback, 14usize))
    &&& after.atr_mult == Some(value_or(before.atr_mult, DEFAULT_ATR_MULT))
    &&& after.vol_mult == Some(value_or(before.vol_mult, DEFAULT_VOL_MULT))
}

/// Fills in the defaults of the backtest, the list of assets excepted.
pub fn apply_strategy_defaults(args: &mut StrategyArgs)
    ensures
        strategy_defaults_applied(*old(args), *final(args)),
{
    if args.btc.is_none() {
        args.btc = Some("./out/BTC.csv".to_owned());
    }
    if args.out.is_none() {
        args.out = Some("./out/signals".to_owned());
    }
    if args.ma_short.is_none() {
        args.ma_short = Some(3);
    }
    if args.ma_long.is_none() {
        args.ma_long = Some(7);
    }
    if args.min_signals.is_none() {
        args.min_signals = Some(DEFAULT_MIN_SIGNALS);
    }
    if args.short_alts.is_none() {
        args.short_alts = Some(false);
    }
    if args.btc_hedge.is_none() {
        args.btc_hedge = Some(DEFAULT_HEDGE);
    }
    if args.stop_lookback.is_none() {
        args.stop_lookback = Some(14);
    }
    if args.atr_mult.is_none() {
        args.atr_mult = Some(DEFAULT_ATR_MULT);
    }
    if args.vol_mult.is_none() {
        args.vol_mult = Some(DEFAULT_VOL_MULT);
    }
}

/// The parameters of the signals that the arguments hold; `None` where one
/// is absent or a multiplier is beyond `MULTIPLIER_LIMIT`.
pub open spec fn signal_params_of(args: StrategyArgs) -> Option<SignalParams> {
    match (
        args.ma_short,
        args.ma_long,
        args.stop_lookback,
        args.atr_mult,
        args.vol_mult,
        args.min_signals,
    ) {
        (Some(ma_short), Some(ma_long), Some(stop_lookback), Some(atr_mult), Some(vol_mult), Some(
            min_signals,
        )) => {
            let p = SignalParams {
                ma_short,
                ma_long,
                stop_lookback,
                atr_mult,
                vol_mult,
                min_signals,
                short_alts: value_or(args.short_alts, false),
            };
            if p.wf() {
                Some(p)
            } else {
                None
            }
        },
        _ => None,
    }
}

/// The parameters of the signals that the arguments hold.
pub fn signal_params(args: &StrategyArgs) -> (p: Option<SignalParams>)
    ensures
        p == signal_params_of(*args),
        p matches Some(q) ==> q.wf(),
{
    match (
        args.ma_short,
        args.ma_long,
        args.stop_lookback,
        args.atr_mult,
        args.vol_mult,
        args.min_signals,
    ) {
        (Some(ma_short), Some(ma_long), Some(stop_lookback), Some(atr_mult), Some(vol_mult), Some(
            min_signals,
        )) => {
            let p = SignalParams {
                ma_short,
                ma_long,
                stop_lookback,
                atr_mult,
                vol_mult,
                min_signals,
                short_alts: match args.short_alts {
                    Some(b) => b,
                    None => false,
                },
            };
            if p.is_valid() {
                Some(p)
            } else {
                None
            }
        },
        _ => None,
    }
}


/// The number of signals that a half weight needs where none is given.
pub const DEFAULT_MIN_SIGNALS: usize = 2;

/// The arguments of the export that the daemon runs: the top hundred coins
/// in `usd` into `./out`, resuming the tables between the given days.
pub fn daemon_ohlc_args(start: String, end: String) -> (args: OhlcArgs)
    ensures
        args.out matches Some(s) && s@ == "./out"@,
        args.api_key is None,
        args.top_n == Some(100usize),
        args.vs matches Some(s) && s@ == "usd"@,
        args.start == Some(start),
        args.end == Some(end),
        args.concurrency == Some(6usize),
        args.request_delay_ms == Some(250u64),
        args.write_manifest == Some(true),
        args.resume == Some(true),
        args.daily_at is None,
        args.lock_file is None,
        args.skip_btc is None,
{
    OhlcArgs {
        out: Some("./out".to_owned()),
        api_key: None,
        top_n: Some(100),
        vs: Some("usd".to_owned()),
        start: Some(start),
        end: Some(end),
        concurrency: Some(6),
        request_delay_ms: Some(250),
        write_manifest: Some(true),
        resume: Some(true),
        daily_at: None,
        lock_file: None,
        skip_btc: None,
    }
}

/// The arguments of the backtest that the daemon runs: the defaults,
/// without a hedge, over the given tables.
pub fn daemon_strategy_args(assets: Vec<String>) -> (args: StrategyArgs)
    ensures
        args.btc matches Some(s) && s@ == "./out/BTC.csv"@,
        args.assets == Some(assets),
        args.out matches Some(s) && s@ == "./out/signals"@,
        args.ma_short == Some(3usize),
        args.ma_long == Some(7usize),
        args.min_signals == Some(DEFAULT_MIN_SIGNALS),
        args.short_alts is None,
        args.btc_hedge == Some(0i128),
        args.stop_lookback == Some(14usize),
        args.atr_mult == Some(DEFAULT_ATR_MULT),
        args.vol_mult == Some(DEFAULT_VOL_MULT),
{
    StrategyArgs {
        btc: Some("./out/BTC.csv".to_owned()),
        assets: Some(assets),
        out: Some("./out/signals".to_owned()),
        ma_short: Some(3),
        ma_long: Some(7),
        min_signals: Some(DEFAULT_MIN_SIGNALS),
        short_alts: None,
        btc_hedge: Some(0),
        stop_lookback: Some(14),
        atr_mult: Some(DEFAULT_ATR_MULT),
        vol_mult: Some(DEFAULT_VOL_MULT),
    }
}

} // verus!

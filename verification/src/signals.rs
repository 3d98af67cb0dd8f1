//! The signal engine: per asset and per day, trend, momentum and
//! relative-strength signals, their score, a raw weight and a stop level.

use vstd::prelude::*;
use crate::fixed::{
    ratio, ratio_of, scaled, scale_by, floor_div, lemma_product_bound, all_within, MAX_PRICE,
    RATIO_LIMIT, SCALE, VALUE_LIMIT,
};
use crate::indicators::{
    mean_at, std_at, opt_int, true_ranges, rolling_ma, rolling_atr, rolling_std,
};
use crate::series::{Series, prices_ok};

verus! {

/// The fixed-point representation of a relative strength of `1`.
pub const RS_SCALE: i128 = 10_000_000_000_000_000;

/// Largest magnitude of a stop multiplier: `1000` as a ratio.
pub const MULTIPLIER_LIMIT: i128 = 100_000_000_000;

/// The raw weight of a day on which all three signals are bullish.
pub const FULL_WEIGHT: i128 = 100_000_000;

/// The raw weight of a day with enough bullish signals, relative strength
/// among them.
pub const HALF_WEIGHT: i128 = 50_000_000;

/// The raw weight of a day on which all three signals are bearish, where
/// short selling is enabled.
pub const SHORT_WEIGHT: i128 = -100_000_000;

/// The configuration of the signal engine, fully populated.
#[derive(Clone, Copy, Debug)]
pub struct SignalParams {
    /// Window of the short moving averages, in days.
    pub ma_short: usize,
    /// Window of the long moving averages, in days.
    pub ma_long: usize,
    /// Window of the average true range and of the return deviation.
    pub stop_lookback: usize,
    /// Multiple of the average true range below the close, as a ratio.
    pub atr_mult: i128,
    /// Multiple of the return deviation below the close, as a ratio.
    pub vol_mult: i128,
    /// Number of bullish signals that a half weight needs.
    pub min_signals: usize,
    /// Whether a fully bearish day gets a short weight.
    pub short_alts: bool,
}

impl SignalParams {
    /// The multipliers are within `MULTIPLIER_LIMIT`.
    pub open spec fn wf(&self) -> bool {
        &&& -MULTIPLIER_LIMIT <= self.atr_mult <= MULTIPLIER_LIMIT
        &&& -MULTIPLIER_LIMIT <= self.vol_mult <= MULTIPLIER_LIMIT
    }

    /// Whether the multipliers are within `MULTIPLIER_LIMIT`.
    pub fn is_valid(&self) -> (b: bool)
        ensures
            b == self.wf(),
    {
        -MULTIPLIER_LIMIT <= self.atr_mult && self.atr_mult <= MULTIPLIER_LIMIT
            && -MULTIPLIER_LIMIT <= self.vol_mult && self.vol_mult <= MULTIPLIER_LIMIT
    }
}

/// The signals of one asset on one day.
#[derive(Clone, Copy, Debug)]
pub struct DailySignal {
    pub date: i32,
    pub price: i128,
    pub ma_short: Option<i128>,
    pub ma_long: Option<i128>,
    /// Asset close over baseline close, in units of `1 / RS_SCALE`.
    pub rs: Option<i128>,
    pub rs_ma_short: Option<i128>,
    pub rs_ma_long: Option<i128>,
    pub trend_bull: bool,
    pub mom_bull: bool,
    pub rs_bull: bool,
    pub score: usize,
    pub raw_weight: i128,
    pub stop_level: Option<i128>,
}

/// Both values are defined and the first is greater.
pub open spec fn above(x: Option<int>, y: Option<int>) -> bool {
    x matches Some(a) && (y matches Some(b) && a > b)
}

/// Both values are defined and the first is smaller.
pub open spec fn below(x: Option<int>, y: Option<int>) -> bool {
    x matches Some(a) && (y matches Some(b) && a < b)
}

/// The number of bullish signals.
pub open spec fn score_of(trend_bull: bool, mom_bull: bool, rs_bull: bool) -> int {
    (if trend_bull {
        1int
    } else {
        0int
    }) + (if mom_bull {
        1int
    } else {
        0int
    }) + (if rs_bull {
        1int
    } else {
        0int
    })
}

/// The raw weight of a day: full with three bullish signals; else half with
/// at least `min_signals` of them and relative strength among them; else
/// short when short selling is enabled and all three signals are bearish;
/// else zero.
pub open spec fn weight_of(
    score: int,
    rs_bull: bool,
    all_bear: bool,
    min_signals: int,
    short_alts: bool,
) -> int {
    if score == 3 {
        FULL_WEIGHT as int
    } else if score >= min_signals && rs_bull {
        HALF_WEIGHT as int
    } else if short_alts && all_bear {
        SHORT_WEIGHT as int
    } else {
        0
    }
}

/// The stop level of a day: the close less a multiple of the average true
/// range where that is defined and positive; else the close reduced by a
/// multiple of the return deviation handed in, where that is defined.
pub open spec fn stop_of(
    close: int,
    atr: Option<int>,
    deviation: Option<int>,
    atr_mult: int,
    vol_mult: int,
) -> Option<int> {
    match atr {
        Some(a) if a > 0 => Some(close - scaled(a, atr_mult)),
        _ => match deviation {
            Some(sd) => Some(scaled(close, SCALE - scaled(sd, vol_mult))),
            None => None,
        },
    }
}

/// The relative-strength line: asset close over baseline close.
pub open spec fn rs_line(asset: Seq<i128>, baseline: Seq<i128>) -> Seq<i128> {
    Seq::new(asset.len(), |i: int| (asset[i] * RS_SCALE / (baseline[i] as int)) as i128)
}

/// Close-to-close returns; entry `j` is the return of day `j + 1`.
pub open spec fn daily_returns(close: Seq<i128>) -> Seq<i128> {
    Seq::new(
        if close.len() > 0 {
            (close.len() - 1) as nat
        } else {
            0
        },
        |j: int| ratio(close[j + 1] - close[j], close[j] as int) as i128,
    )
}

/// The return deviation that the stop of day `i` falls back on: the entry
/// before `i` of the rolling deviation of the daily returns.
pub open spec fn fallback_deviation(close: Seq<i128>, w: int, i: int) -> Option<int> {
    if i > 0 {
        std_at(daily_returns(close), w, i - 1)
    } else {
        None
    }
}

/// What the signal of `asset` on day `i` is, field by field.
pub open spec fn signal_ok(
    sig: DailySignal,
    asset: Series,
    baseline: Series,
    params: SignalParams,
    i: int,
) -> bool {
    let close = asset.close@;
    let rs = rs_line(asset.close@, baseline.close@);
    let ma_s = mean_at(close, params.ma_short as int, i);
    let ma_l = mean_at(close, params.ma_long as int, i);
    let rs_s = mean_at(rs, params.ma_short as int, i);
    let rs_l = mean_at(rs, params.ma_long as int, i);
    let price = Some(close[i] as int);
    let atr = mean_at(true_ranges(asset.high@, asset.low@, close), params.stop_lookback as int, i);
    let all_bear = below(price, ma_l) && below(ma_s, ma_l) && below(rs_s, rs_l);
    &&& sig.date == asset.dates[i]
    &&& sig.price == close[i]
    &&& opt_int(sig.ma_short) == ma_s
    &&& opt_int(sig.ma_long) == ma_l
    &&& opt_int(sig.rs) == Some(rs[i] as int)
    &&& opt_int(sig.rs_ma_short) == rs_s
    &&& opt_int(sig.rs_ma_long) == rs_l
    &&& sig.trend_bull == above(price, ma_l)
    &&& sig.mom_bull == above(ma_s, ma_l)
    &&& sig.rs_bull == above(rs_s, rs_l)
    &&& sig.score == score_of(sig.trend_bull, sig.mom_bull, sig.rs_bull)
    &&& sig.raw_weight == weight_of(
        sig.score as int,
        sig.rs_bull,
        all_bear,
        params.min_signals as int,
        params.short_alts,
    )
    &&& opt_int(sig.stop_level) == stop_of(
        close[i] as int,
        atr,
        fallback_deviation(close, params.stop_lookback as int, i),
        params.atr_mult as int,
        params.vol_mult as int,
    )
}

impl DailySignal {
    /// The price is in range and the raw weight is between `-1` and `1`.
    pub open spec fn valid(&self) -> bool {
        &&& 1 <= self.price <= MAX_PRICE
        &&& -SCALE <= self.raw_weight <= SCALE
    }

    /// Whether the price is in range and the raw weight between `-1` and `1`.
    pub fn is_valid(&self) -> (b: bool)
        ensures
            b == self.valid(),
    {
        1 <= self.price && self.price <= MAX_PRICE && -SCALE <= self.raw_weight
            && self.raw_weight <= SCALE
    }
}

/// With three bullish signals the raw weight is full. With fewer bullish
/// signals than a half weight needs, the raw weight is zero or short, never
/// half; this is stated where three signals are enough for a half weight.
pub proof fn lemma_score_consistency(
    trend_bull: bool,
    mom_bull: bool,
    rs_bull: bool,
    all_bear: bool,
    min_signals: int,
    short_alts: bool,
)
    ensures
        score_of(trend_bull, mom_bull, rs_bull) == 3 ==> weight_of(
            score_of(trend_bull, mom_bull, rs_bull),
            rs_bull,
            all_bear,
            min_signals,
            short_alts,
        ) == FULL_WEIGHT,
        score_of(trend_bull, mom_bull, rs_bull) < min_signals && min_signals <= 3 ==> {
            let w = weight_of(
                score_of(trend_bull, mom_bull, rs_bull),
                rs_bull,
                all_bear,
                min_signals,
                short_alts,
            );
            w == 0 || w == SHORT_WEIGHT
        },
{
}

/// Of every signal of the engine: the score counts its three signals and
/// lies between zero and three; a score of three carries the full weight;
/// a score below the number of signals for a half weight carries no weight
/// or the short one, where three signals are enough for a half weight; and
/// the raw weight is one of the four weights.
pub proof fn lemma_signal_consistency(
    sig: DailySignal,
    asset: Series,
    baseline: Series,
    params: SignalParams,
    i: int,
)
    requires
        signal_ok(sig, asset, baseline, params, i),
    ensures
        sig.score == score_of(sig.trend_bull, sig.mom_bull, sig.rs_bull),
        0 <= sig.score <= 3,
        sig.score == 3 ==> sig.raw_weight == FULL_WEIGHT,
        sig.score < params.min_signals && params.min_signals <= 3 ==> sig.raw_weight == 0
            || sig.raw_weight == SHORT_WEIGHT,
        sig.raw_weight == FULL_WEIGHT || sig.raw_weight == HALF_WEIGHT || sig.raw_weight
            == SHORT_WEIGHT || sig.raw_weight == 0,
        sig.raw_weight == SHORT_WEIGHT ==> params.short_alts && sig.score == 0,
{
}

/// Whether both values are defined and the first is greater.
pub fn is_above(x: Option<i128>, y: Option<i128>) -> (b: bool)
    ensures
        b == above(opt_int(x), opt_int(y)),
{
    match (x, y) {
        (Some(a), Some(c)) => a > c,
        _ => false,
    }
}

/// Whether both values are defined and the first is smaller.
pub fn is_below(x: Option<i128>, y: Option<i128>) -> (b: bool)
    ensures
        b == below(opt_int(x), opt_int(y)),
{
    match (x, y) {
        (Some(a), Some(c)) => a < c,
        _ => false,
    }
}

/// Counts the bullish signals.
pub fn score(trend_bull: bool, mom_bull: bool, rs_bull: bool) -> (s: usize)
    ensures
        s == score_of(trend_bull, mom_bull, rs_bull),
        s <= 3,
{
    let mut s: usize = 0;
    if trend_bull {
        s = s + 1;
    }
    if mom_bull {
        s = s + 1;
    }
    if rs_bull {
        s = s + 1;
    }
    s
}

/// The raw weight of a day from its score and signals.
pub fn raw_weight(
    score: usize,
    rs_bull: bool,
    all_bear: bool,
    min_signals: usize,
    short_alts: bool,
) -> (w: i128)
    ensures
        w == weight_of(score as int, rs_bull, all_bear, min_signals as int, short_alts),
        w == FULL_WEIGHT || w == HALF_WEIGHT || w == SHORT_WEIGHT || w == 0,
        score == 3 ==> w == FULL_WEIGHT,
        score < min_signals && score != 3 ==> w == 0 || w == SHORT_WEIGHT,
{
    if score == 3 {
        FULL_WEIGHT
    } else if score >= min_signals && rs_bull {
        HALF_WEIGHT
    } else if short_alts && all_bear {
        SHORT_WEIGHT
    } else {
        0
    }
}

/// The stop level of a day.
pub fn stop_level(
    close: i128,
    atr: Option<i128>,
    deviation: Option<i128>,
    atr_mult: i128,
    vol_mult: i128,
) -> (stop: Option<i128>)
    requires
        1 <= close <= MAX_PRICE,
        atr matches Some(a) ==> 0 <= a <= 2 * MAX_PRICE,
        deviation matches Some(sd) ==> 0 <= sd <= RATIO_LIMIT,
        -MULTIPLIER_LIMIT <= atr_mult <= MULTIPLIER_LIMIT,
        -MULTIPLIER_LIMIT <= vol_mult <= MULTIPLIER_LIMIT,
    ensures
        opt_int(stop) == stop_of(
            close as int,
            opt_int(atr),
            opt_int(deviation),
            atr_mult as int,
            vol_mult as int,
        ),
{
    match atr {
        Some(a) if a > 0 => {
            proof {
                lemma_product_bound(a as int, atr_mult as int, 2 * MAX_PRICE, MULTIPLIER_LIMIT as int);
            }
            let drop = scale_by(a, atr_mult);
            proof {
                crate::fixed::lemma_div_monotone(
                    a * atr_mult,
                    2 * MAX_PRICE * MULTIPLIER_LIMIT,
                    SCALE as int,
                );
                crate::fixed::lemma_div_monotone(
                    -(2 * MAX_PRICE * MULTIPLIER_LIMIT),
                    a * atr_mult,
                    SCALE as int,
                );
            }
            Some(close - drop)
        },
        _ => match deviation {
            Some(sd) => {
                proof {
                    lemma_product_bound(
                        sd as int,
                        vol_mult as int,
                        RATIO_LIMIT as int,
                        MULTIPLIER_LIMIT as int,
                    );
                }
                let cut = scale_by(sd, vol_mult);
                proof {
                    crate::fixed::lemma_div_monotone(
                        sd * vol_mult,
                        RATIO_LIMIT * MULTIPLIER_LIMIT,
                        SCALE as int,
                    );
                    crate::fixed::lemma_div_monotone(
                        -(RATIO_LIMIT * MULTIPLIER_LIMIT),
                        sd * vol_mult,
                        SCALE as int,
                    );
                }
                let keep: i128 = SCALE - cut;
                proof {
                    lemma_product_bound(
                        close as int,
                        keep as int,
                        MAX_PRICE as int,
                        2 * MAX_PRICE,
                    );
                }
                Some(scale_by(close, keep))
            },
            None => None,
        },
    }
}

/// The signals of `asset` against `baseline`, one per day. Both series are
/// on the same calendar. The raw weight of every signal follows from its
/// score: three bullish signals carry the full weight, and fewer than a
/// half weight needs, where three are enough for one, carry no weight or
/// the short one, never half.
#[verifier::loop_isolation(false)]
pub fn compute_signals(asset: &Series, baseline: &Series, params: &SignalParams) -> (out: Vec<
    DailySignal,
>)
    requires
        asset.wf(),
        baseline.wf(),
        asset.dates@ == baseline.dates@,
        params.wf(),
    ensures
        out.len() == asset.dates.len(),
        forall|i: int|
            0 <= i < out.len() ==> signal_ok(#[trigger] out[i], *asset, *baseline, *params, i),
        forall|i: int| 0 <= i < out.len() ==> (#[trigger] out[i]).valid(),
        forall|i: int|
            0 <= i < out.len() ==> {
                let s = #[trigger] out[i];
                &&& 0 <= s.score <= 3
                &&& s.score == 3 ==> s.raw_weight == FULL_WEIGHT
                &&& s.score < params.min_signals && params.min_signals <= 3 ==> s.raw_weight == 0
                    || s.raw_weight == SHORT_WEIGHT
                &&& s.raw_weight != HALF_WEIGHT || s.score >= params.min_signals
            },
{
    let n = asset.close.len();
    proof {
        assert forall|i: int| 0 <= i < n implies 1 <= #[trigger] asset.close[i] <= MAX_PRICE by {
            assert(prices_ok(asset.close@, asset.high@, asset.low@, i));
        }
        assert forall|i: int| 0 <= i < n implies 1 <= #[trigger] baseline.close[i]
            <= MAX_PRICE by {
            assert(prices_ok(baseline.close@, baseline.high@, baseline.low@, i));
        }
        assert forall|i: int| 0 <= i < n implies (#[trigger] asset.high[i] matches Some(v) ==> -MAX_PRICE
            <= v <= MAX_PRICE) by {
            assert(prices_ok(asset.close@, asset.high@, asset.low@, i));
        }
        assert forall|i: int| 0 <= i < n implies (#[trigger] asset.low[i] matches Some(v) ==> -MAX_PRICE
            <= v <= MAX_PRICE) by {
            assert(prices_ok(asset.close@, asset.high@, asset.low@, i));
        }
    }
    let ma_s = rolling_ma(asset.close.as_slice(), params.ma_short);
    let ma_l = rolling_ma(asset.close.as_slice(), params.ma_long);
    let rs = relative_strength(&asset.close, &baseline.close);
    let rs_s = rolling_ma(rs.as_slice(), params.ma_short);
    let rs_l = rolling_ma(rs.as_slice(), params.ma_long);
    let atr = rolling_atr(
        asset.high.as_slice(),
        asset.low.as_slice(),
        asset.close.as_slice(),
        params.stop_lookback,
    );
    let rets = close_to_close_returns(&asset.close);
    let devs = rolling_std(rets.as_slice(), params.stop_lookback);
    let ghost ranges = true_ranges(asset.high@, asset.low@, asset.close@);
    let mut out: Vec<DailySignal> = Vec::new();
    let mut i: usize = 0;
    while i < n
        invariant
            i <= n,
            out.len() == i,
            forall|j: int|
                0 <= j < i ==> signal_ok(#[trigger] out[j], *asset, *baseline, *params, j),
            forall|j: int| 0 <= j < i ==> (#[trigger] out[j]).valid(),
        decreases n - i,
    {
        let price = asset.close[i];
        let trend_bull = is_above(Some(price), ma_l[i]);
        let mom_bull = is_above(ma_s[i], ma_l[i]);
        let rs_bull = is_above(rs_s[i], rs_l[i]);
        let all_bear = is_below(Some(price), ma_l[i]) && is_below(ma_s[i], ma_l[i]) && is_below(
            rs_s[i],
            rs_l[i],
        );
        let count = score(trend_bull, mom_bull, rs_bull);
        let weight = raw_weight(count, rs_bull, all_bear, params.min_signals, params.short_alts);
        let deviation = if i > 0 {
            devs[i - 1]
        } else {
            None
        };
        proof {
            if atr[i as int] is Some {
                assert(all_within(ranges, 2 * MAX_PRICE)) by {
                    assert forall|j: int| 0 <= j < ranges.len() implies -(2 * MAX_PRICE)
                        <= #[trigger] ranges[j] <= 2 * MAX_PRICE by {
                        lemma_true_range_bound(*asset, j);
                    }
                }
                assert forall|j: int| 0 <= j < ranges.len() implies ranges[j] >= 0 by {
                    lemma_true_range_bound(*asset, j);
                }
                crate::indicators::lemma_mean_within(
                    ranges,
                    params.stop_lookback as int,
                    i as int,
                    2 * MAX_PRICE,
                );
            }
        }
        let stop = stop_level(price, atr[i], deviation, params.atr_mult, params.vol_mult);
        out.push(
            DailySignal {
                date: asset.dates[i],
                price,
                ma_short: ma_s[i],
                ma_long: ma_l[i],
                rs: Some(rs[i]),
                rs_ma_short: rs_s[i],
                rs_ma_long: rs_l[i],
                trend_bull,
                mom_bull,
                rs_bull,
                score: count,
                raw_weight: weight,
                stop_level: stop,
            },
        );
        i = i + 1;
    }
    proof {
        assert forall|i: int| 0 <= i < out.len() implies {
            let s = #[trigger] out[i];
            &&& 0 <= s.score <= 3
            &&& s.score == 3 ==> s.raw_weight == FULL_WEIGHT
            &&& s.score < params.min_signals && params.min_signals <= 3 ==> s.raw_weight == 0
                || s.raw_weight == SHORT_WEIGHT
            &&& s.raw_weight != HALF_WEIGHT || s.score >= params.min_signals
        } by {
            lemma_signal_consistency(out[i], *asset, *baseline, *params, i);
        }
    }
    out
}

/// Each true range of a series lies between zero and twice `MAX_PRICE`.
pub proof fn lemma_true_range_bound(s: Series, j: int)
    requires
        s.wf(),
        0 <= j < s.dates.len(),
    ensures
        0 <= true_ranges(s.high@, s.low@, s.close@)[j] <= 2 * MAX_PRICE,
        true_ranges(s.high@, s.low@, s.close@)[j] == crate::indicators::true_range_at(
            s.high@,
            s.low@,
            s.close@,
            j,
        ),
{
    assert(prices_ok(s.close@, s.high@, s.low@, j));
    if j > 0 {
        assert(prices_ok(s.close@, s.high@, s.low@, j - 1));
    }
}

/// The relative-strength line of two close columns of one length.
pub fn relative_strength(asset: &Vec<i128>, baseline: &Vec<i128>) -> (rs: Vec<i128>)
    requires
        asset.len() == baseline.len(),
        forall|i: int| 0 <= i < asset.len() ==> 1 <= #[trigger] asset[i] <= MAX_PRICE,
        forall|i: int| 0 <= i < baseline.len() ==> 1 <= #[trigger] baseline[i] <= MAX_PRICE,
    ensures
        rs@ == rs_line(asset@, baseline@),
        all_within(rs@, VALUE_LIMIT as int),
{
    let n = asset.len();
    let mut rs: Vec<i128> = Vec::new();
    let mut i: usize = 0;
    while i < n
        invariant
            n == asset.len(),
            n == baseline.len(),
            forall|k: int| 0 <= k < asset.len() ==> 1 <= #[trigger] asset[k] <= MAX_PRICE,
            forall|k: int| 0 <= k < baseline.len() ==> 1 <= #[trigger] baseline[k] <= MAX_PRICE,
            i <= n,
            rs.len() == i,
            forall|k: int|
                0 <= k < i ==> #[trigger] rs[k] == asset[k] * RS_SCALE / (baseline[k] as int) && 0
                    <= rs[k] <= VALUE_LIMIT,
        decreases n - i,
    {
        let a = asset[i];
        let b = baseline[i];
        let q = floor_div(a * RS_SCALE, b);
        proof {
            crate::fixed::lemma_div_monotone(0, a * RS_SCALE, b as int);
            vstd::arithmetic::div_mod::lemma_div_is_ordered_by_denominator(a * RS_SCALE, 1, b as int);
        }
        rs.push(q);
        i = i + 1;
    }
    assert(rs@ =~= rs_line(asset@, baseline@));
    rs
}

/// The close-to-close returns of a close column.
pub fn close_to_close_returns(close: &Vec<i128>) -> (rets: Vec<i128>)
    requires
        forall|i: int| 0 <= i < close.len() ==> 1 <= #[trigger] close[i] <= MAX_PRICE,
    ensures
        rets@ == daily_returns(close@),
        all_within(rets@, RATIO_LIMIT as int),
{
    let n = close.len();
    let mut rets: Vec<i128> = Vec::new();
    let mut j: usize = 1;
    while j < n
        invariant
            n == close.len(),
            forall|k: int| 0 <= k < close.len() ==> 1 <= #[trigger] close[k] <= MAX_PRICE,
            1 <= j,
            j <= n || j == 1,
            rets.len() == j - 1,
            forall|k: int|
                0 <= k < j - 1 ==> #[trigger] rets[k] == ratio(
                    close[k + 1] - close[k],
                    close[k] as int,
                ) && -RATIO_LIMIT <= rets[k] <= RATIO_LIMIT,
        decreases n - j,
    {
        let r = ratio_of(close[j] - close[j - 1], close[j - 1]);
        rets.push(r);
        j = j + 1;
    }
    proof {
        let want = daily_returns(close@);
        assert(rets.len() == want.len());
        assert forall|k: int| 0 <= k < rets.len() implies rets[k] == want[k] by {
            assert(rets[k] == ratio(close[k + 1] - close[k], close[k] as int));
        }
        assert(rets@ =~= want);
    }
    rets
}

} // verus!

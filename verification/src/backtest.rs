//! One run of the backtest: series with enough history, their shared
//! calendar, the signals of each asset, the simulated portfolio and its
//! statistics.

use vstd::prelude::*;
use crate::calendar::{
    AlignError, align, common_calendar, in_every, is_common_calendar, sufficient_history,
};
use crate::fixed::MAX_DAYS;
use crate::portfolio::{
    PortfolioMetrics, PortfolioState, curve_laws, daily_return_at, equity_at, inputs_ok,
    long_count, metrics_ok, portfolio_metrics, simulate_portfolio, HEDGE_LIMIT, MAX_ASSETS,
};
use crate::series::{Series, row_from};
use crate::signals::{
    DailySignal, SignalParams, compute_signals, lemma_signal_consistency, signal_ok, FULL_WEIGHT,
    SHORT_WEIGHT,
};

verus! {

/// The result of a run.
pub struct Backtest {
    /// The positions of the assets that take part, in ascending order.
    pub kept: Vec<usize>,
    /// The dates that the baseline and all assets that take part share.
    pub calendar: Vec<i32>,
    /// The baseline on the calendar.
    pub baseline: Series,
    /// The assets that take part, each on the calendar.
    pub assets: Vec<Series>,
    pub baseline_signals: Vec<DailySignal>,
    pub signals: Vec<Vec<DailySignal>>,
    pub states: Vec<PortfolioState>,
    pub metrics: PortfolioMetrics,
}

/// The series that are aligned: the baseline, then the assets at the
/// positions `kept`.
pub open spec fn taking_part(baseline: Series, assets: Seq<Series>, kept: Seq<usize>) -> Seq<
    Series,
> {
    seq![baseline] + Seq::new(kept.len(), |k: int| assets[kept[k] as int])
}

/// `kept` lists, in ascending order, the positions of the assets with at
/// least `min_days` days.
pub open spec fn is_selection(kept: Seq<usize>, assets: Seq<Series>, min_days: int) -> bool {
    &&& forall|a: int, b: int| 0 <= a < b < kept.len() ==> kept[a] < kept[b]
    &&& forall|a: int| 0 <= a < kept.len() ==> #[trigger] kept[a] < assets.len()
    &&& forall|k: int|
        0 <= k < assets.len() ==> (kept.contains(k as usize) <==> (#[trigger] assets[k]).dates.len()
            >= min_days)
}

/// `on` is `src` on the days of `calendar`.
pub open spec fn is_aligned(on: Series, src: Series, calendar: Seq<i32>) -> bool {
    &&& on.wf()
    &&& on.dates@ == calendar
    &&& forall|k: int| 0 <= k < calendar.len() ==> #[trigger] row_from(src, on, k)
}

/// What a run returns for a baseline, a set of assets, the parameters of
/// the signals and a hedge weight.
pub open spec fn backtest_ok(
    r: Backtest,
    baseline: Series,
    assets: Seq<Series>,
    params: SignalParams,
    hedge_weight: int,
) -> bool {
    &&& is_selection(r.kept@, assets, params.ma_long + 10)
    &&& r.calendar@ == common_calendar(taking_part(baseline, assets, r.kept@))
    &&& is_common_calendar(r.calendar@, taking_part(baseline, assets, r.kept@))
    &&& r.calendar.len() >= params.ma_long + 10
    &&& is_aligned(r.baseline, baseline, r.calendar@)
    &&& r.assets.len() == r.kept.len()
    &&& forall|a: int|
        0 <= a < r.kept.len() ==> is_aligned(
            #[trigger] r.assets[a],
            assets[r.kept[a] as int],
            r.calendar@,
        )
    &&& r.baseline_signals.len() == r.calendar.len()
    &&& forall|i: int|
        0 <= i < r.calendar.len() ==> signal_ok(
            #[trigger] r.baseline_signals[i],
            r.baseline,
            r.baseline,
            params,
            i,
        )
    &&& r.signals.len() == r.kept.len()
    &&& forall|a: int| 0 <= a < r.kept.len() ==> (#[trigger] r.signals[a]).len() == r.calendar.len()
    &&& forall|a: int, i: int|
        0 <= a < r.kept.len() && 0 <= i < r.calendar.len() ==> signal_ok(
            #[trigger] r.signals[a][i],
            r.assets[a],
            r.baseline,
            params,
            i,
        )
    &&& r.states.len() == r.calendar.len()
    &&& forall|i: int|
        0 <= i < r.states.len() ==> {
            &&& (#[trigger] r.states[i]).date == r.calendar[i]
            &&& r.states[i].equity == equity_at(r.signals@, r.baseline_signals@, hedge_weight, i)
            &&& r.states[i].daily_return == daily_return_at(
                r.signals@,
                r.baseline_signals@,
                hedge_weight,
                i,
            )
            &&& r.states[i].active_position_count == if i == 0 {
                0
            } else {
                long_count(r.signals@, i, r.signals.len() as int)
            }
        }
    &&& metrics_ok(r.metrics, r.states@)
}

/// What holds of every run: there is one state for each date of the
/// calendar, in the order of the dates, and the calendar is not empty; the
/// curve starts at `1` with no return and no position and obeys the laws of
/// equity curves; and the raw weight of
/// every signal follows from its score: three bullish signals carry the
/// full weight, and fewer than a half weight needs, where three are enough
/// for one, carry no weight or the short one.
pub open spec fn run_laws(r: Backtest, params: SignalParams, hedged: bool) -> bool {
    &&& r.states.len() == r.calendar.len()
    &&& r.states.len() >= 10
    &&& forall|i: int| 0 <= i < r.states.len() ==> (#[trigger] r.states[i]).date == r.calendar[i]
    &&& forall|i: int, j: int|
        0 <= i < j < r.states.len() ==> (#[trigger] r.states[i]).date < (#[trigger] r.states[j]).date
    &&& curve_laws(r.states@, hedged)
    &&& forall|a: int, i: int|
        0 <= a < r.signals.len() && 0 <= i < r.signals[a].len() ==> {
            let s = #[trigger] r.signals[a][i];
            &&& 0 <= s.score <= 3
            &&& s.score == 3 ==> s.raw_weight == FULL_WEIGHT
            &&& s.score < params.min_signals && params.min_signals <= 3 ==> s.raw_weight == 0
                || s.raw_weight == SHORT_WEIGHT
        }
}

/// A copy of a series.
pub fn duplicate(s: &Series) -> (c: Series)
    ensures
        c.dates@ == s.dates@,
        c.close@ == s.close@,
        c.high@ == s.high@,
        c.low@ == s.low@,
        s.wf() ==> c.wf(),
{
    let n = s.dates.len();
    let mut dates: Vec<i32> = Vec::new();
    let mut close: Vec<i128> = Vec::new();
    let mut high: Vec<Option<i128>> = Vec::new();
    let mut low: Vec<Option<i128>> = Vec::new();
    let mut i: usize = 0;
    while i < s.dates.len()
        invariant
            i <= s.dates.len(),
            dates@ == s.dates@.subrange(0, i as int),
        decreases s.dates.len() - i,
    {
        dates.push(s.dates[i]);
        proof {
            assert(dates@ =~= s.dates@.subrange(0, i + 1));
        }
        i = i + 1;
    }
    let mut i: usize = 0;
    while i < s.close.len()
        invariant
            i <= s.close.len(),
            close@ == s.close@.subrange(0, i as int),
        decreases s.close.len() - i,
    {
        close.push(s.close[i]);
        proof {
            assert(close@ =~= s.close@.subrange(0, i + 1));
        }
        i = i + 1;
    }
    let mut i: usize = 0;
    while i < s.high.len()
        invariant
            i <= s.high.len(),
            high@ == s.high@.subrange(0, i as int),
        decreases s.high.len() - i,
    {
        high.push(s.high[i]);
        proof {
            assert(high@ =~= s.high@.subrange(0, i + 1));
        }
        i = i + 1;
    }
    let mut i: usize = 0;
    while i < s.low.len()
        invariant
            i <= s.low.len(),
            low@ == s.low@.subrange(0, i as int),
        decreases s.low.len() - i,
    {
        low.push(s.low[i]);
        proof {
            assert(low@ =~= s.low@.subrange(0, i + 1));
        }
        i = i + 1;
    }
    proof {
        assert(dates@ =~= s.dates@);
        assert(close@ =~= s.close@);
        assert(high@ =~= s.high@);
        assert(low@ =~= s.low@);
    }
    Series { dates, close, high, low }
}

/// Runs the backtest. Assets with fewer than `ma_long + 10` days are left
/// out; the run fails when the baseline and the other assets share fewer
/// dates than that.
#[verifier::loop_isolation(false)]
pub fn run_backtest(
    baseline: &Series,
    assets: &Vec<Series>,
    params: &SignalParams,
    hedge_weight: i128,
) -> (r: Result<Backtest, AlignError>)
    requires
        baseline.wf(),
        forall|k: int| 0 <= k < assets.len() ==> (#[trigger] assets[k]).wf(),
        assets.len() <= MAX_ASSETS,
        params.wf(),
        params.ma_long <= MAX_DAYS,
        -HEDGE_LIMIT <= hedge_weight <= HEDGE_LIMIT,
    ensures
        match r {
            Ok(b) => backtest_ok(b, *baseline, assets@, *params, hedge_weight as int)
                && run_laws(b, *params, hedge_weight > 0),
            Err(
                AlignError::InsufficientHistory { required, actual, series, first_date, last_date },
            ) => {
                &&& required == params.ma_long + 10
                &&& actual < required
                &&& exists|kept: Seq<usize>|
                    #![trigger taking_part(*baseline, assets@, kept)]
                    {
                        let calendar = common_calendar(taking_part(*baseline, assets@, kept));
                        &&& is_selection(kept, assets@, params.ma_long + 10)
                        &&& actual == calendar.len()
                        &&& series == kept.len() + 1
                        &&& first_date == crate::calendar::first_of(calendar)
                        &&& last_date == crate::calendar::last_of(calendar)
                    }
            },
        },
{
    let min_days = params.ma_long + 10;
    let kept = sufficient_history(assets.as_slice(), min_days);
    let mut all: Vec<Series> = Vec::new();
    all.push(duplicate(baseline));
    let mut k: usize = 0;
    while k < kept.len()
        invariant
            k <= kept.len(),
            all.len() == k + 1,
            all[0].dates@ == baseline.dates@,
            forall|j: int| 0 <= j < all.len() ==> (#[trigger] all[j]).wf(),
            forall|j: int|
                0 <= j < k ==> (#[trigger] all[j + 1]).dates@ == assets[kept[j] as int].dates@,
        decreases kept.len() - k,
    {
        all.push(duplicate(&assets[kept[k]]));
        k = k + 1;
    }
    let ghost part = taking_part(*baseline, assets@, kept@);
    proof {
        assert(part.len() == all.len());
        assert forall|d: i32| in_every(all@, d) <==> in_every(part, d) by {
            if in_every(all@, d) {
                assert forall|j: int| 0 <= j < part.len() implies (#[trigger] part[j]).dates@.contains(
                    d,
                ) by {
                    assert(all[j].dates@.contains(d));
                    if j > 0 {
                        assert(all[(j - 1) + 1].dates@ == assets[kept[j - 1] as int].dates@);
                    }
                }
            }
            if in_every(part, d) {
                assert forall|j: int| 0 <= j < all.len() implies (#[trigger] all@[j]).dates@.contains(
                    d,
                ) by {
                    assert(part[j].dates@.contains(d));
                    if j > 0 {
                        assert(all[(j - 1) + 1].dates@ == assets[kept[j - 1] as int].dates@);
                    }
                }
            }
        }
    }
    let calendar = match align(all.as_slice(), params.ma_long) {
        Ok(c) => c,
        Err(e) => {
            proof {
                let c = common_calendar(all@);
                assert(is_common_calendar(c, part));
                crate::calendar::lemma_common_calendar_unique(c, part);
            }
            return Err(e);
        },
    };
    proof {
        assert(is_common_calendar(calendar@, part));
        crate::calendar::lemma_common_calendar_unique(calendar@, part);
        assert forall|j: int, i: int|
            0 <= j < part.len() && 0 <= i < calendar.len() implies (#[trigger] part[j]).dates@.contains(
            #[trigger] calendar[i],
        ) by {
            assert(calendar@.contains(calendar[i]));
            assert(in_every(part, calendar[i]));
        }
        assert(part[0] == *baseline);
    }
    let base_on = match baseline.align_to(&calendar) {
        Some(s) => s,
        None => {
            proof {
                assert forall|i: int| 0 <= i < calendar.len() implies baseline.dates@.contains(
                    #[trigger] calendar[i],
                ) by {
                    assert(part[0].dates@.contains(calendar[i]));
                }
            }
            vstd::pervasive::unreached()
        },
    };
    let baseline_signals = compute_signals(&base_on, &base_on, params);
    let mut on: Vec<Series> = Vec::new();
    let mut signals: Vec<Vec<DailySignal>> = Vec::new();
    let mut a: usize = 0;
    while a < kept.len()
        invariant
            a <= kept.len(),
            on.len() == a,
            signals.len() == a,
            forall|j: int|
                0 <= j < a ==> is_aligned(#[trigger] on[j], assets[kept[j] as int], calendar@),
            forall|j: int| 0 <= j < a ==> (#[trigger] signals[j]).len() == calendar.len(),
            forall|j: int, i: int|
                0 <= j < a && 0 <= i < calendar.len() ==> signal_ok(
                    #[trigger] signals[j][i],
                    on[j],
                    base_on,
                    *params,
                    i,
                ),
            forall|j: int, i: int|
                0 <= j < a && 0 <= i < calendar.len() ==> (#[trigger] signals[j][i]).valid(),
        decreases kept.len() - a,
    {
        let src = &assets[kept[a]];
        let one = match src.align_to(&calendar) {
            Some(s) => s,
            None => {
                proof {
                    assert(part[a + 1] == assets[kept[a as int] as int]);
                    assert forall|i: int| 0 <= i < calendar.len() implies src.dates@.contains(
                        #[trigger] calendar[i],
                    ) by {
                        assert(part[a + 1].dates@.contains(calendar[i]));
                    }
                }
                vstd::pervasive::unreached()
            },
        };
        let sigs = compute_signals(&one, &base_on, params);
        let ghost old_on = on@;
        let ghost old_signals = signals@;
        on.push(one);
        signals.push(sigs);
        proof {
            assert forall|j: int| 0 <= j < a + 1 implies is_aligned(
                #[trigger] on[j],
                assets[kept[j] as int],
                calendar@,
            ) by {
                if j < a {
                    assert(on[j] == old_on[j]);
                }
            }
            assert forall|j: int, i: int|
                0 <= j < a + 1 && 0 <= i < calendar.len() implies signal_ok(
                #[trigger] signals[j][i],
                on[j],
                base_on,
                *params,
                i,
            ) && signals[j][i].valid() by {
                if j < a {
                    assert(on[j] == old_on[j]);
                    assert(signals[j] == old_signals[j]);
                }
            }
        }
        a = a + 1;
    }
    proof {
        assert(signals.len() <= MAX_ASSETS);
        assert forall|j: int| 0 <= j < signals.len() implies (#[trigger] signals@[j]).len()
            == baseline_signals@.len() by {
            assert(signals[j].len() == calendar.len());
        }
        assert forall|j: int, i: int|
            0 <= j < signals@.len() && 0 <= i < baseline_signals@.len() implies (
        #[trigger] signals@[j][i]).valid() by {
            assert(signals[j][i].valid());
        }
        assert(inputs_ok(signals@, baseline_signals@));
    }
    let states = simulate_portfolio(&signals, &baseline_signals, hedge_weight);
    proof {
        assert forall|i: int| 0 <= i < states.len() implies (#[trigger] states[i]).date
            == calendar[i] by {
            assert(signal_ok(baseline_signals[i], base_on, base_on, *params, i));
        }
    }
    let metrics = portfolio_metrics(&states);
    proof {
        assert forall|a: int, i: int|
            0 <= a < signals.len() && 0 <= i < signals[a].len() implies {
            let s = #[trigger] signals[a][i];
            &&& 0 <= s.score <= 3
            &&& s.score == 3 ==> s.raw_weight == FULL_WEIGHT
            &&& s.score < params.min_signals && params.min_signals <= 3 ==> s.raw_weight == 0
                || s.raw_weight == SHORT_WEIGHT
        } by {
            lemma_signal_consistency(signals[a][i], on[a], base_on, *params, i);
        }
    }
    Ok(
        Backtest {
            kept,
            calendar,
            baseline: base_on,
            assets: on,
            baseline_signals,
            signals,
            states,
            metrics,
        },
    )
}

} // verus!

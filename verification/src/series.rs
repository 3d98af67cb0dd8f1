//! Daily price series: their rows, their invariant, and their restriction
//! to a calendar.

use vstd::prelude::*;
use crate::fixed::{MAX_DAYS, MAX_PRICE};

verus! {

/// One day of one asset as it is read from a table of prices. A date is a
/// day number; prices are ticks.
#[derive(Clone, Copy, Debug)]
pub struct Row {
    pub date: i32,
    pub open: Option<i128>,
    pub high: Option<i128>,
    pub low: Option<i128>,
    pub close: i128,
}

/// The history of one asset, one entry per day, column by column.
#[derive(Clone, Debug)]
pub struct Series {
    pub dates: Vec<i32>,
    pub close: Vec<i128>,
    pub high: Vec<Option<i128>>,
    pub low: Vec<Option<i128>>,
}

/// Why a table of prices is not a series.
#[derive(Clone, Copy, Debug, PartialEq, Eq)]
pub enum MalformedInputSeries {
    /// The columns differ in length.
    LengthMismatch,
    /// There are more than `MAX_DAYS` days.
    TooLong,
    /// The date at `index` is not later than the date before it.
    DateOrder { index: usize },
    /// A price at `index` is not between one tick and `MAX_PRICE`.
    PriceOutOfRange { index: usize },
}

/// A price that a series may hold: positive, since returns divide by it,
/// and so at least one tick, the smallest positive price that ticks can
/// count. Prices below a tick are quoted in a smaller unit; the signals do
/// not depend on the unit.
pub open spec fn price_ok(p: i128) -> bool {
    1 <= p <= MAX_PRICE
}

/// An optional price that a series may hold.
pub open spec fn opt_price_ok(p: Option<i128>) -> bool {
    p matches Some(v) ==> price_ok(v)
}

/// Each element is greater than the one before it.
pub open spec fn strictly_increasing(d: Seq<i32>) -> bool {
    forall|i: int, j: int| 0 <= i < j < d.len() ==> d[i] < d[j]
}

/// The date at `i` is later than the date before it.
pub open spec fn date_ok(dates: Seq<i32>, i: int) -> bool {
    i > 0 ==> dates[i - 1] < dates[i]
}

/// The prices at `i` are all in range.
pub open spec fn prices_ok(
    close: Seq<i128>,
    high: Seq<Option<i128>>,
    low: Seq<Option<i128>>,
    i: int,
) -> bool {
    price_ok(close[i]) && opt_price_ok(high[i]) && opt_price_ok(low[i])
}

/// The columns have one length, at most `MAX_DAYS`.
pub open spec fn shape_ok(
    dates: Seq<i32>,
    close: Seq<i128>,
    high: Seq<Option<i128>>,
    low: Seq<Option<i128>>,
) -> bool {
    close.len() == dates.len() && high.len() == dates.len() && low.len() == dates.len()
        && dates.len() <= MAX_DAYS
}

/// The first `n` rows are in order and in range.
pub open spec fn rows_ok(
    dates: Seq<i32>,
    close: Seq<i128>,
    high: Seq<Option<i128>>,
    low: Seq<Option<i128>>,
    n: int,
) -> bool {
    forall|i: int| 0 <= i < n ==> #[trigger] date_ok(dates, i) && prices_ok(close, high, low, i)
}

/// Row `k` of `dst` is a row of `src`.
pub open spec fn row_from(src: Series, dst: Series, k: int) -> bool {
    has_source(src, dst.dates@, dst.close@, dst.high@, dst.low@, k)
}

/// Row `k` of the given columns is a row of `src`.
pub open spec fn has_source(
    src: Series,
    dates: Seq<i32>,
    close: Seq<i128>,
    high: Seq<Option<i128>>,
    low: Seq<Option<i128>>,
    k: int,
) -> bool {
    exists|p: int| 0 <= p < src.dates.len() && #[trigger] took_row(src, p, dates, close, high, low, k)
}

/// Row `k` of the given columns is row `p` of `src`.
pub open spec fn took_row(
    src: Series,
    p: int,
    dates: Seq<i32>,
    close: Seq<i128>,
    high: Seq<Option<i128>>,
    low: Seq<Option<i128>>,
    k: int,
) -> bool {
    &&& src.dates[p] == dates[k]
    &&& src.close[p] == close[k]
    &&& src.high[p] == high[k]
    &&& src.low[p] == low[k]
}

/// The dates of rows.
pub open spec fn row_dates(rows: Seq<Row>) -> Seq<i32> {
    Seq::new(rows.len(), |i: int| rows[i].date)
}

/// The closes of rows.
pub open spec fn row_closes(rows: Seq<Row>) -> Seq<i128> {
    Seq::new(rows.len(), |i: int| rows[i].close)
}

/// The highs of rows.
pub open spec fn row_highs(rows: Seq<Row>) -> Seq<Option<i128>> {
    Seq::new(rows.len(), |i: int| rows[i].high)
}

/// The lows of rows.
pub open spec fn row_lows(rows: Seq<Row>) -> Seq<Option<i128>> {
    Seq::new(rows.len(), |i: int| rows[i].low)
}

/// Consecutive order implies order between any two positions.
pub proof fn lemma_consecutive_order(d: Seq<i32>)
    requires
        forall|i: int| 0 <= i < d.len() ==> date_ok(d, i),
    ensures
        strictly_increasing(d),
{
    assert forall|i: int, j: int| 0 <= i < j < d.len() implies d[i] < d[j] by {
        lemma_consecutive_order_between(d, i, j);
    }
}

/// Consecutive order implies order between two given positions.
proof fn lemma_consecutive_order_between(d: Seq<i32>, i: int, j: int)
    requires
        forall|k: int| 0 <= k < d.len() ==> date_ok(d, k),
        0 <= i < j < d.len(),
    ensures
        d[i] < d[j],
    decreases j - i,
{
    assert(date_ok(d, j));
    if i < j - 1 {
        lemma_consecutive_order_between(d, i, j - 1);
    }
}

impl Series {
    /// The invariant of a series: columns of one bounded length, dates
    /// strictly increasing, prices in range.
    pub open spec fn wf(&self) -> bool {
        &&& shape_ok(self.dates@, self.close@, self.high@, self.low@)
        &&& strictly_increasing(self.dates@)
        &&& forall|i: int|
            0 <= i < self.dates.len() ==> #[trigger] prices_ok(
                self.close@,
                self.high@,
                self.low@,
                i,
            )
    }

    /// Builds a series from its columns, or says what is wrong with the
    /// first row that is out of order or out of range.
    pub fn new(
        dates: Vec<i32>,
        close: Vec<i128>,
        high: Vec<Option<i128>>,
        low: Vec<Option<i128>>,
    ) -> (r: Result<Series, MalformedInputSeries>)
        ensures
            match r {
                Ok(s) => {
                    &&& s.wf()
                    &&& s.dates == dates
                    &&& s.close == close
                    &&& s.high == high
                    &&& s.low == low
                    &&& shape_ok(dates@, close@, high@, low@)
                    &&& rows_ok(dates@, close@, high@, low@, dates.len() as int)
                },
                Err(MalformedInputSeries::LengthMismatch) => {
                    close.len() != dates.len() || high.len() != dates.len() || low.len()
                        != dates.len()
                },
                Err(MalformedInputSeries::TooLong) => {
                    &&& close.len() == dates.len()
                    &&& high.len() == dates.len()
                    &&& low.len() == dates.len()
                    &&& dates.len() > MAX_DAYS
                },
                Err(MalformedInputSeries::DateOrder { index }) => {
                    &&& shape_ok(dates@, close@, high@, low@)
                    &&& index < dates.len()
                    &&& rows_ok(dates@, close@, high@, low@, index as int)
                    &&& !date_ok(dates@, index as int)
                },
                Err(MalformedInputSeries::PriceOutOfRange { index }) => {
                    &&& shape_ok(dates@, close@, high@, low@)
                    &&& index < dates.len()
                    &&& rows_ok(dates@, close@, high@, low@, index as int)
                    &&& date_ok(dates@, index as int)
                    &&& !prices_ok(close@, high@, low@, index as int)
                },
            },
    {
        let n = dates.len();
        if close.len() != n || high.len() != n || low.len() != n {
            return Err(MalformedInputSeries::LengthMismatch);
        }
        if n > MAX_DAYS {
            return Err(MalformedInputSeries::TooLong);
        }
        let mut i: usize = 0;
        while i < n
            invariant
                n == dates.len(),
                shape_ok(dates@, close@, high@, low@),
                i <= n,
                rows_ok(dates@, close@, high@, low@, i as int),
            decreases n - i,
        {
            if i > 0 && dates[i - 1] >= dates[i] {
                return Err(MalformedInputSeries::DateOrder { index: i });
            }
            if !in_range(close[i]) || !opt_in_range(high[i]) || !opt_in_range(low[i]) {
                return Err(MalformedInputSeries::PriceOutOfRange { index: i });
            }
            i = i + 1;
        }
        proof {
            lemma_consecutive_order(dates@);
            assert forall|k: int| 0 <= k < n implies #[trigger] prices_ok(
                close@,
                high@,
                low@,
                k,
            ) by {
                assert(date_ok(dates@, k));
            }
        }
        Ok(Series { dates, close, high, low })
    }

    /// Builds a series from rows in date order, or says what is wrong with
    /// the first row that is out of order or out of range.
    pub fn from_rows(rows: &Vec<Row>) -> (r: Result<Series, MalformedInputSeries>)
        ensures
            match r {
                Ok(s) => {
                    &&& s.wf()
                    &&& s.dates@ == row_dates(rows@)
                    &&& s.close@ == row_closes(rows@)
                    &&& s.high@ == row_highs(rows@)
                    &&& s.low@ == row_lows(rows@)
                    &&& rows.len() <= MAX_DAYS
                    &&& rows_ok(
                        row_dates(rows@),
                        row_closes(rows@),
                        row_highs(rows@),
                        row_lows(rows@),
                        rows.len() as int,
                    )
                },
                Err(MalformedInputSeries::LengthMismatch) => false,
                Err(MalformedInputSeries::TooLong) => rows.len() > MAX_DAYS,
                Err(MalformedInputSeries::DateOrder { index }) => {
                    &&& rows.len() <= MAX_DAYS
                    &&& index < rows.len()
                    &&& rows_ok(
                        row_dates(rows@),
                        row_closes(rows@),
                        row_highs(rows@),
                        row_lows(rows@),
                        index as int,
                    )
                    &&& !date_ok(row_dates(rows@), index as int)
                },
                Err(MalformedInputSeries::PriceOutOfRange { index }) => {
                    &&& rows.len() <= MAX_DAYS
                    &&& index < rows.len()
                    &&& rows_ok(
                        row_dates(rows@),
                        row_closes(rows@),
                        row_highs(rows@),
                        row_lows(rows@),
                        index as int,
                    )
                    &&& date_ok(row_dates(rows@), index as int)
                    &&& !prices_ok(
                        row_closes(rows@),
                        row_highs(rows@),
                        row_lows(rows@),
                        index as int,
                    )
                },
            },
    {
        let n = rows.len();
        let mut dates: Vec<i32> = Vec::new();
        let mut close: Vec<i128> = Vec::new();
        let mut high: Vec<Option<i128>> = Vec::new();
        let mut low: Vec<Option<i128>> = Vec::new();
        let mut i: usize = 0;
        while i < n
            invariant
                n == rows.len(),
                i <= n,
                dates.len() == i,
                close.len() == i,
                high.len() == i,
                low.len() == i,
                forall|j: int|
                    0 <= j < i ==> {
                        &&& dates[j] == (#[trigger] rows[j]).date
                        &&& close[j] == rows[j].close
                        &&& high[j] == rows[j].high
                        &&& low[j] == rows[j].low
                    },
            decreases n - i,
        {
            let row = rows[i];
            dates.push(row.date);
            close.push(row.close);
            high.push(row.high);
            low.push(row.low);
            i = i + 1;
        }
        proof {
            assert(dates@ =~= row_dates(rows@));
            assert(close@ =~= row_closes(rows@));
            assert(high@ =~= row_highs(rows@));
            assert(low@ =~= row_lows(rows@));
        }
        Series::new(dates, close, high, low)
    }

    /// The series on the days of `calendar` only. It exists when every day
    /// of the calendar is a day of the series.
    pub fn align_to(&self, calendar: &Vec<i32>) -> (r: Option<Series>)
        requires
            self.wf(),
            strictly_increasing(calendar@),
        ensures
            r is Some <==> forall|k: int|
                0 <= k < calendar.len() ==> self.dates@.contains(#[trigger] calendar[k]),
            r matches Some(s) ==> {
                &&& s.wf()
                &&& s.dates@ == calendar@
                &&& forall|k: int| 0 <= k < calendar.len() ==> #[trigger] row_from(*self, s, k)
            },
    {
        let n = self.dates.len();
        let m = calendar.len();
        let mut dates: Vec<i32> = Vec::new();
        let mut close: Vec<i128> = Vec::new();
        let mut high: Vec<Option<i128>> = Vec::new();
        let mut low: Vec<Option<i128>> = Vec::new();
        let mut p: usize = 0;
        let mut k: usize = 0;
        while k < m
            invariant
                self.wf(),
                strictly_increasing(calendar@),
                n == self.dates.len(),
                m == calendar.len(),
                p <= n,
                k <= m,
                k <= p,
                dates.len() == k,
                close.len() == k,
                high.len() == k,
                low.len() == k,
                dates@ == calendar@.subrange(0, k as int),
                k < m ==> forall|q: int| 0 <= q < p ==> self.dates[q] < calendar[k as int],
                forall|j: int|
                    0 <= j < k ==> #[trigger] has_source(*self, dates@, close@, high@, low@, j),
                forall|j: int| 0 <= j < k ==> self.dates@.contains(#[trigger] calendar[j]),
                forall|j: int| 0 <= j < k ==> #[trigger] prices_ok(close@, high@, low@, j),
            decreases (n - p) + (m - k),
        {
            let want = calendar[k];
            if p >= n {
                proof {
                    assert(!self.dates@.contains(want)) by {
                        if self.dates@.contains(want) {
                            let q = choose|q: int| 0 <= q < n && self.dates[q] == want;
                            assert(self.dates[q] < calendar[k as int]);
                        }
                    }
                }
                return None;
            }
            let have = self.dates[p];
            if have < want {
                p = p + 1;
            } else if have > want {
                proof {
                    assert(!self.dates@.contains(want)) by {
                        if self.dates@.contains(want) {
                            let q = choose|q: int| 0 <= q < n && self.dates[q] == want;
                            if q < p {
                                assert(self.dates[q] < calendar[k as int]);
                            } else if q > p {
                                assert(self.dates[p as int] < self.dates[q]);
                            }
                        }
                    }
                }
                return None;
            } else {
                let ghost old_dates = dates@;
                let ghost old_close = close@;
                let ghost old_high = high@;
                let ghost old_low = low@;
                proof {
                    assert(prices_ok(self.close@, self.high@, self.low@, p as int));
                }
                dates.push(have);
                close.push(self.close[p]);
                high.push(self.high[p]);
                low.push(self.low[p]);
                proof {
                    assert(took_row(*self, p as int, dates@, close@, high@, low@, k as int));
                    assert forall|j: int| 0 <= j < k + 1 implies #[trigger] has_source(
                        *self,
                        dates@,
                        close@,
                        high@,
                        low@,
                        j,
                    ) by {
                        if j < k {
                            assert(has_source(*self, old_dates, old_close, old_high, old_low, j));
                            let q = choose|q: int|
                                0 <= q < n && #[trigger] took_row(
                                    *self,
                                    q,
                                    old_dates,
                                    old_close,
                                    old_high,
                                    old_low,
                                    j,
                                );
                            assert(took_row(*self, q, dates@, close@, high@, low@, j));
                        }
                    }
                    assert(self.dates@[p as int] == calendar[k as int]);
                    assert(dates@ =~= calendar@.subrange(0, k + 1));
                    assert forall|j: int| 0 <= j < k + 1 implies #[trigger] prices_ok(
                        close@,
                        high@,
                        low@,
                        j,
                    ) by {
                        if j < k {
                            assert(prices_ok(old_close, old_high, old_low, j));
                        }
                    }
                    if k + 1 < m {
                        assert forall|q: int| 0 <= q < p + 1 implies self.dates[q] < calendar[k
                            + 1] by {
                            assert(calendar[k as int] < calendar[k + 1]);
                            if q < p {
                                assert(self.dates[q] < self.dates[p as int]);
                            }
                        }
                    }
                }
                p = p + 1;
                k = k + 1;
            }
        }
        let s = Series { dates, close, high, low };
        proof {
            assert(s.dates@ =~= calendar@);
            assert forall|i: int| 0 <= i < s.dates.len() implies #[trigger] prices_ok(
                s.close@,
                s.high@,
                s.low@,
                i,
            ) by {
            }
            assert forall|j: int| 0 <= j < calendar.len() implies #[trigger] row_from(
                *self,
                s,
                j,
            ) by {
                assert(has_source(*self, dates@, close@, high@, low@, j));
            }
        }
        Some(s)
    }

    /// Whether the invariant of a series holds of the columns.
    pub fn is_wf(&self) -> (b: bool)
        ensures
            b == self.wf(),
    {
        let n = self.dates.len();
        if self.close.len() != n || self.high.len() != n || self.low.len() != n || n > MAX_DAYS {
            return false;
        }
        let mut i: usize = 0;
        while i < n
            invariant
                n == self.dates.len(),
                shape_ok(self.dates@, self.close@, self.high@, self.low@),
                i <= n,
                rows_ok(self.dates@, self.close@, self.high@, self.low@, i as int),
            decreases n - i,
        {
            if i > 0 && self.dates[i - 1] >= self.dates[i] {
                proof {
                    assert(!(self.dates[i - 1] < self.dates[i as int]));
                }
                return false;
            }
            if !in_range(self.close[i]) || !opt_in_range(self.high[i]) || !opt_in_range(
                self.low[i],
            ) {
                proof {
                    assert(!prices_ok(self.close@, self.high@, self.low@, i as int));
                }
                return false;
            }
            i = i + 1;
        }
        proof {
            lemma_consecutive_order(self.dates@);
            assert forall|k: int| 0 <= k < n implies #[trigger] prices_ok(
                self.close@,
                self.high@,
                self.low@,
                k,
            ) by {
                assert(date_ok(self.dates@, k));
            }
        }
        true
    }

    /// The number of days in the series.
    pub fn len(&self) -> (n: usize)
        ensures
            n == self.dates.len(),
    {
        self.dates.len()
    }
}

/// Whether a price is between one tick and `MAX_PRICE`.
pub fn in_range(p: i128) -> (b: bool)
    ensures
        b == price_ok(p),
{
    1 <= p && p <= MAX_PRICE
}

/// Whether an optional price, if present, is in range.
pub fn opt_in_range(p: Option<i128>) -> (b: bool)
    ensures
        b == opt_price_ok(p),
{
    match p {
        Some(v) => in_range(v),
        None => true,
    }
}

} // verus!

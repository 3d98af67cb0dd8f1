//! The decisions of the export of daily candles: which days to ask for,
//! in which chunks, when to retry, and which rows to write.

use vstd::prelude::*;
use crate::dates::{
    day_end, day_of, day_of_timestamp, day_start, timestamp_of, DAY_LIMIT, DAY_SECONDS,
    TIMESTAMP_LIMIT,
};

use crate::ranking::{is_ranking, rank_descending};

verus! {

/// A coin of the market listing.
#[derive(Clone, Debug)]
pub struct MarketCoin {
    pub id: String,
    pub symbol: String,
    pub name: String,
    pub market_cap_rank: Option<u32>,
}

/// One candle as it arrives: a timestamp in milliseconds, then open, high,
/// low and close.
#[derive(Clone, Copy, Debug, PartialEq, Eq)]
pub struct OhlcRaw(pub i64, pub i128, pub i128, pub i128, pub i128);

/// The candle of one day.
#[derive(Clone, Copy, Debug, PartialEq, Eq)]
pub struct DailyBar {
    pub date: i32,
    pub open: i128,
    pub high: i128,
    pub low: i128,
    pub close: i128,
}

/// Number of days that are asked for where no start is given.
pub const DEFAULT_SPAN_DAYS: i32 = 30;

/// Largest number of days in one request.
pub const CHUNK_DAYS: i64 = 180;

/// Largest number of coins on one page of the listing.
pub const PAGE_LIMIT: usize = 250;

/// Number of retries after which a request is given up.
pub const MAX_RETRIES: usize = 6;

/// Milliseconds that each further attempt waits longer.
pub const BACKOFF_STEP_MS: u64 = 300;

/// `day - span`, or the smallest day where that is out of reach.
pub open spec fn days_before(day: int, span: int) -> int {
    if day - span >= i32::MIN {
        day - span
    } else {
        i32::MIN as int
    }
}

/// The days to ask for: an end that is given, else the day before today;
/// a start that is given, else thirty days before the end.
pub fn default_range(today: i32, start: Option<i32>, end: Option<i32>) -> (range: (i32, i32))
    ensures
        range.1 == match end {
            Some(e) => e as int,
            None => days_before(today as int, 1),
        },
        range.0 == match start {
            Some(s) => s as int,
            None => days_before(range.1 as int, DEFAULT_SPAN_DAYS as int),
        },
{
    let last = match end {
        Some(e) => e,
        None => if today > i32::MIN {
            today - 1
        } else {
            i32::MIN
        },
    };
    let first = match start {
        Some(s) => s,
        None => if last >= i32::MIN + DEFAULT_SPAN_DAYS {
            last - DEFAULT_SPAN_DAYS
        } else {
            i32::MIN
        },
    };
    (first, last)
}

/// Why a run cannot start.
#[derive(Clone, Copy, Debug, PartialEq, Eq)]
pub enum RunError {
    /// A day is beyond `DAY_LIMIT`.
    DateOutOfRange,
    /// The last second of the end is not after the first second of the start.
    EndNotAfterStart,
}

/// The timestamps between which a run asks for candles: the first second
/// of the start and the last second of the end.
pub fn run_window(start: i32, end: i32) -> (r: Result<(i64, i64), RunError>)
    ensures
        match r {
            Ok((from_ts, to_ts)) => {
                &&& -DAY_LIMIT <= start <= DAY_LIMIT
                &&& -DAY_LIMIT <= end <= DAY_LIMIT
                &&& from_ts == timestamp_of(start as int, 0, 0, 0)
                &&& to_ts == timestamp_of(end as int, 23, 59, 59)
                &&& from_ts < to_ts
            },
            Err(RunError::DateOutOfRange) => !(-DAY_LIMIT <= start <= DAY_LIMIT && -DAY_LIMIT
                <= end <= DAY_LIMIT),
            Err(RunError::EndNotAfterStart) => {
                &&& -DAY_LIMIT <= start <= DAY_LIMIT
                &&& -DAY_LIMIT <= end <= DAY_LIMIT
                &&& timestamp_of(end as int, 23, 59, 59) <= timestamp_of(start as int, 0, 0, 0)
            },
        },
{
    match (day_start(start), day_end(end)) {
        (Some(from_ts), Some(to_ts)) => {
            if to_ts <= from_ts {
                Err(RunError::EndNotAfterStart)
            } else {
                Ok((from_ts, to_ts))
            }
        },
        _ => Err(RunError::DateOutOfRange),
    }
}

/// What to do after a request has failed.
#[derive(Clone, Copy, Debug, PartialEq, Eq)]
pub enum RetryDecision {
    GiveUp,
    /// Wait this many milliseconds, then ask again.
    Wait(u64),
}

/// The decision after the failure number `attempt`, counted from one: to
/// give up after `MAX_RETRIES` failures; else to wait as many seconds as the
/// server asked for, or 300 milliseconds per failure so far. A wait beyond
/// the range of the counter is the longest possible.
pub open spec fn retry_spec(attempt: int, retry_after: Option<u64>) -> RetryDecision {
    if attempt > MAX_RETRIES {
        RetryDecision::GiveUp
    } else {
        let wait = match retry_after {
            Some(s) => s * 1000,
            None => BACKOFF_STEP_MS * attempt,
        };
        RetryDecision::Wait(
            if wait > u64::MAX {
                u64::MAX
            } else {
                wait as u64
            },
        )
    }
}

/// Decides what to do after a failed request.
pub fn retry_decision(attempt: usize, retry_after: Option<u64>) -> (d: RetryDecision)
    ensures
        d == retry_spec(attempt as int, retry_after),
{
    if attempt > MAX_RETRIES {
        RetryDecision::GiveUp
    } else {
        match retry_after {
            Some(s) => {
                if s > u64::MAX / 1000 {
                    RetryDecision::Wait(u64::MAX)
                } else {
                    RetryDecision::Wait(s * 1000)
                }
            },
            None => RetryDecision::Wait(BACKOFF_STEP_MS * (attempt as u64)),
        }
    }
}

/// The end of the chunk that starts at `from_ts`: 180 days later, or the
/// end of the run where that comes first.
pub open spec fn chunk_end(from_ts: int, to_ts: int) -> int {
    if from_ts + CHUNK_DAYS * DAY_SECONDS < to_ts {
        from_ts + CHUNK_DAYS * DAY_SECONDS
    } else {
        to_ts
    }
}

/// The next chunk to ask for, with the start of the chunk after it; `None`
/// once the start has reached the end of the run.
pub fn next_chunk(from_ts: i64, to_ts: i64) -> (c: Option<(i64, i64, i64)>)
    ensures
        c is Some <==> from_ts < to_ts,
        c matches Some((a, b, next)) ==> {
            &&& a == from_ts
            &&& b == chunk_end(from_ts as int, to_ts as int)
            &&& from_ts < b <= to_ts
            &&& next == if b < i64::MAX {
                b + 1
            } else {
                b as int
            }
        },
{
    if from_ts < to_ts {
        let span: i64 = CHUNK_DAYS * DAY_SECONDS;
        let end: i64 = if from_ts <= i64::MAX - span && from_ts + span < to_ts {
            from_ts + span
        } else {
            to_ts
        };
        let next: i64 = if end < i64::MAX {
            end + 1
        } else {
            end
        };
        Some((from_ts, end, next))
    } else {
        None
    }
}

/// What an update of the table of one coin does.
#[derive(Clone, Copy, Debug, PartialEq, Eq)]
pub enum UpdatePlan {
    /// The table reaches the end of the run: nothing is asked for.
    UpToDate,
    /// Candles are asked for from this timestamp on.
    Fetch { from_ts: i64 },
    /// The last date of the table is beyond `DAY_LIMIT`.
    DateOutOfRange,
}

/// The plan of an update. When resuming from a table with a last date,
/// the update starts on the day after it, and there is nothing to do where
/// that day begins after the end of the run; else it starts where the run
/// starts.
pub fn plan_update(start_ts: i64, end_ts: i64, resume: bool, last_date: Option<i32>) -> (p:
    UpdatePlan)
    ensures
        p == match last_date {
            Some(ld) if resume => if -DAY_LIMIT <= ld < DAY_LIMIT {
                if timestamp_of(ld + 1, 0, 0, 0) > end_ts {
                    UpdatePlan::UpToDate
                } else {
                    UpdatePlan::Fetch { from_ts: timestamp_of(ld + 1, 0, 0, 0) as i64 }
                }
            } else {
                UpdatePlan::DateOutOfRange
            },
            _ => UpdatePlan::Fetch { from_ts: start_ts },
        },
{
    match last_date {
        Some(ld) if resume => {
            if -DAY_LIMIT <= ld && ld < DAY_LIMIT {
                match day_start(ld + 1) {
                    Some(from_ts) => {
                        if from_ts > end_ts {
                            UpdatePlan::UpToDate
                        } else {
                            UpdatePlan::Fetch { from_ts }
                        }
                    },
                    None => UpdatePlan::DateOutOfRange,
                }
            } else {
                UpdatePlan::DateOutOfRange
            }
        },
        _ => UpdatePlan::Fetch { from_ts: start_ts },
    }
}

/// How the rows of an update reach the table.
#[derive(Clone, Copy, Debug, PartialEq, Eq)]
pub enum WriteMode {
    /// The rows are added to the table that exists.
    Append,
    /// A new table is written and put in the place of the old one.
    Fresh,
}

/// Rows are appended when resuming from a table that exists, else a fresh
/// table is written.
pub fn write_mode(exists: bool, resume: bool) -> (m: WriteMode)
    ensures
        m == if exists && resume {
            WriteMode::Append
        } else {
            WriteMode::Fresh
        },
{
    if exists && resume {
        WriteMode::Append
    } else {
        WriteMode::Fresh
    }
}

/// The rows among the first `k` that are later than `after`.
pub open spec fn later_rows(rows: Seq<DailyBar>, after: int, k: int) -> Seq<DailyBar>
    decreases k,
{
    if k <= 0 {
        Seq::empty()
    } else if rows[k - 1].date > after {
        later_rows(rows, after, k - 1).push(rows[k - 1])
    } else {
        later_rows(rows, after, k - 1)
    }
}

/// The rows that an update writes: when resuming from a table that exists
/// and has a last date, those later than that date; else all.
pub fn rows_to_write(rows: &Vec<DailyBar>, resume: bool, exists: bool, last_date: Option<i32>) -> (out:
    Vec<DailyBar>)
    ensures
        out@ == match last_date {
            Some(ld) if resume && exists => later_rows(rows@, ld as int, rows.len() as int),
            _ => rows@,
        },
{
    let mut out: Vec<DailyBar> = Vec::new();
    let filter = resume && exists && last_date.is_some();
    let after: i32 = match last_date {
        Some(ld) => ld,
        None => 0,
    };
    let mut k: usize = 0;
    while k < rows.len()
        invariant
            k <= rows.len(),
            filter == (resume && exists && last_date is Some),
            last_date matches Some(ld) ==> after == ld,
            filter ==> out@ == later_rows(rows@, after as int, k as int),
            !filter ==> out@ == rows@.subrange(0, k as int),
        decreases rows.len() - k,
    {
        if !filter || rows[k].date > after {
            out.push(rows[k]);
        }
        proof {
            if !filter {
                assert(out@ =~= rows@.subrange(0, k + 1));
            }
        }
        k = k + 1;
    }
    proof {
        if !filter {
            assert(out@ =~= rows@);
        }
    }
    out
}


/// A copy of a coin.
pub fn copy_coin(c: &MarketCoin) -> (r: MarketCoin)
    ensures
        r == *c,
{
    MarketCoin {
        id: c.id.clone(),
        symbol: c.symbol.clone(),
        name: c.name.clone(),
        market_cap_rank: c.market_cap_rank,
    }
}

/// The baseline coin.
pub fn bitcoin() -> (c: MarketCoin)
    ensures
        c.id@ == "bitcoin"@,
        c.symbol@ == "btc"@,
        c.name@ == "Bitcoin"@,
        c.market_cap_rank == Some(1u32),
{
    MarketCoin {
        id: "bitcoin".to_owned(),
        symbol: "btc".to_owned(),
        name: "Bitcoin".to_owned(),
        market_cap_rank: Some(1),
    }
}

/// The coins that a run starts with: the baseline, unless it is skipped.
pub fn starting_coins(skip_btc: bool) -> (coins: Vec<MarketCoin>)
    ensures
        skip_btc ==> coins.len() == 0,
        !skip_btc ==> coins.len() == 1 && coins[0].id@ == "bitcoin"@ && coins[0].symbol@ == "btc"@
            && coins[0].name@ == "Bitcoin"@ && coins[0].market_cap_rank == Some(1u32),
{
    let mut coins: Vec<MarketCoin> = Vec::new();
    if !skip_btc {
        coins.push(bitcoin());
    }
    coins
}

/// A coin with this id is among the first `k` of `known`.
pub open spec fn is_known(known: Seq<MarketCoin>, id: Seq<char>, k: int) -> bool
    decreases k,
{
    if k <= 0 {
        false
    } else {
        known[k - 1].id@ == id || is_known(known, id, k - 1)
    }
}

/// The coins among the first `k` of `top` whose id is not among `known`.
pub open spec fn unknown_coins(top: Seq<MarketCoin>, known: Seq<MarketCoin>, k: int) -> Seq<
    MarketCoin,
>
    decreases k,
{
    if k <= 0 {
        Seq::empty()
    } else if is_known(known, top[k - 1].id@, known.len() as int) {
        unknown_coins(top, known, k - 1)
    } else {
        unknown_coins(top, known, k - 1).push(top[k - 1])
    }
}

/// Whether a coin with this id is among `known`.
pub fn knows(known: &Vec<MarketCoin>, id: &String) -> (b: bool)
    ensures
        b == is_known(known@, id@, known.len() as int),
{
    let mut i: usize = 0;
    let mut found = false;
    while i < known.len()
        invariant
            i <= known.len(),
            found == is_known(known@, id@, i as int),
        decreases known.len() - i,
    {
        if known[i].id == *id {
            found = true;
        }
        i = i + 1;
    }
    found
}

/// The coins of a run: those it starts with, then the coins of the listing
/// whose id is not among them.
pub fn merge_coins(first: &Vec<MarketCoin>, top: &Vec<MarketCoin>) -> (coins: Vec<MarketCoin>)
    ensures
        coins@ == first@ + unknown_coins(top@, first@, top.len() as int),
{
    let mut coins: Vec<MarketCoin> = Vec::new();
    let mut i: usize = 0;
    while i < first.len()
        invariant
            i <= first.len(),
            coins@ == first@.subrange(0, i as int),
        decreases first.len() - i,
    {
        coins.push(copy_coin(&first[i]));
        proof {
            assert(coins@ =~= first@.subrange(0, i + 1));
        }
        i = i + 1;
    }
    proof {
        assert(first@.subrange(0, first.len() as int) =~= first@);
        assert(coins@ =~= first@ + unknown_coins(top@, first@, 0));
    }
    let mut k: usize = 0;
    while k < top.len()
        invariant
            k <= top.len(),
            coins@ == first@ + unknown_coins(top@, first@, k as int),
        decreases top.len() - k,
    {
        if !knows(first, &top[k].id) {
            coins.push(copy_coin(&top[k]));
            proof {
                assert(coins@ =~= first@ + unknown_coins(top@, first@, k + 1));
            }
        }
        k = k + 1;
    }
    coins
}

/// The coins among the first `k` of a page that have an id.
pub open spec fn named_coins(page: Seq<MarketCoin>, k: int) -> Seq<MarketCoin>
    decreases k,
{
    if k <= 0 {
        Seq::empty()
    } else if page[k - 1].id@.len() == 0 {
        named_coins(page, k - 1)
    } else {
        named_coins(page, k - 1).push(page[k - 1])
    }
}

/// The coins of a page that have an id.
pub fn keep_named(page: &Vec<MarketCoin>) -> (named: Vec<MarketCoin>)
    ensures
        named@ == named_coins(page@, page.len() as int),
{
    let mut named: Vec<MarketCoin> = Vec::new();
    let mut k: usize = 0;
    while k < page.len()
        invariant
            k <= page.len(),
            named@ == named_coins(page@, k as int),
        decreases page.len() - k,
    {
        if !page[k].id.as_str().is_empty() {
            named.push(copy_coin(&page[k]));
        }
        k = k + 1;
    }
    named
}

/// The number of coins to ask for on the next page: as many as are still
/// wanted, 250 at most; `None` once enough coins are there or the last page
/// had none with an id.
pub fn next_page_size(top_n: usize, have: usize, last_page: Option<usize>) -> (per: Option<usize>)
    ensures
        per == if have < top_n && last_page != Some(0usize) {
            Some(
                if top_n - have < PAGE_LIMIT {
                    (top_n - have) as usize
                } else {
                    PAGE_LIMIT
                },
            )
        } else {
            None
        },
{
    let stop = match last_page {
        Some(n) => n == 0,
        None => false,
    };
    if have < top_n && !stop {
        if top_n - have < PAGE_LIMIT {
            Some(top_n - have)
        } else {
            Some(PAGE_LIMIT)
        }
    } else {
        None
    }
}

/// The key by which the coins of the listing are ordered: the negated
/// rank, a coin without rank counting as ranked last.
pub open spec fn rank_keys(coins: Seq<MarketCoin>) -> Seq<i128> {
    Seq::new(
        coins.len(),
        |i: int|
            match coins[i].market_cap_rank {
                Some(r) => (-(r as int)) as i128,
                None => (-(u32::MAX as int)) as i128,
            },
    )
}

/// `true` for every position.
pub open spec fn all_eligible(n: nat) -> Seq<bool> {
    Seq::new(n, |i: int| true)
}

/// `out` holds the first `top_n` coins, or all, in ascending order of
/// rank, coins of one rank in the order of the listing.
pub open spec fn is_top_by_rank(out: Seq<MarketCoin>, coins: Seq<MarketCoin>, top_n: int) -> bool {
    exists|order: Seq<usize>| #[trigger]
        is_ranking(order, rank_keys(coins), all_eligible(coins.len()), coins.len() as int)
            && order.len() == coins.len() && out.len() == (if coins.len() <= top_n {
            coins.len() as int
        } else {
            top_n
        }) && forall|p: int| 0 <= p < out.len() ==> out[p] == coins[order[p] as int]
}

/// The first `top_n` coins by rank.
pub fn finish_top(coins: &Vec<MarketCoin>, top_n: usize) -> (out: Vec<MarketCoin>)
    ensures
        is_top_by_rank(out@, coins@, top_n as int),
{
    let n = coins.len();
    let mut keys: Vec<i128> = Vec::new();
    let mut flags: Vec<bool> = Vec::new();
    let mut i: usize = 0;
    while i < n
        invariant
            n == coins.len(),
            i <= n,
            keys.len() == i,
            flags.len() == i,
            keys@ == rank_keys(coins@).subrange(0, i as int),
            flags@ == all_eligible(n as nat).subrange(0, i as int),
        decreases n - i,
    {
        let key: i128 = match coins[i].market_cap_rank {
            Some(r) => -(r as i128),
            None => -(u32::MAX as i128),
        };
        keys.push(key);
        flags.push(true);
        proof {
            assert(keys@ =~= rank_keys(coins@).subrange(0, i + 1));
            assert(flags@ =~= all_eligible(n as nat).subrange(0, i + 1));
        }
        i = i + 1;
    }
    proof {
        assert(keys@ =~= rank_keys(coins@));
        assert(flags@ =~= all_eligible(n as nat));
    }
    let order = rank_descending(&keys, &flags);
    proof {
        crate::ranking::lemma_ranking_of_all(order@, keys@, flags@);
    }
    let take: usize = if n <= top_n {
        n
    } else {
        top_n
    };
    let mut out: Vec<MarketCoin> = Vec::new();
    let mut p: usize = 0;
    while p < take
        invariant
            n == coins.len(),
            take <= n,
            order.len() == n,
            is_ranking(order@, keys@, flags@, n as int),
            p <= take,
            out.len() == p,
            forall|q: int| 0 <= q < p ==> out[q] == coins[order[q] as int],
        decreases take - p,
    {
        out.push(copy_coin(&coins[order[p]]));
        p = p + 1;
    }
    out
}


/// The whole seconds of a timestamp in milliseconds, rounded towards zero.
pub open spec fn seconds_of(ms: int) -> int {
    if ms >= 0 {
        ms / 1000
    } else {
        -((-ms) / 1000)
    }
}

/// The whole seconds of a timestamp in milliseconds.
pub fn to_seconds(ms: i64) -> (secs: i64)
    ensures
        secs == seconds_of(ms as int),
{
    if ms >= 0 {
        ms / 1000
    } else if ms == i64::MIN {
        -9_223_372_036_854_775
    } else {
        -((-ms) / 1000)
    }
}

/// The day of a candle.
pub open spec fn raw_day(r: OhlcRaw) -> int {
    day_of(seconds_of(r.0 as int))
}

/// The timestamp of a candle is within `TIMESTAMP_LIMIT`.
pub open spec fn raw_in_range(r: OhlcRaw) -> bool {
    -TIMESTAMP_LIMIT <= seconds_of(r.0 as int) <= TIMESTAMP_LIMIT
}

/// The candle of the day of `r`, with the prices of `r`.
pub open spec fn bar_of(r: OhlcRaw) -> DailyBar {
    DailyBar { date: raw_day(r) as i32, open: r.1, high: r.2, low: r.3, close: r.4 }
}

/// The candles of the days that end among the first `k` candles: of each
/// run of candles of one day, the last.
pub open spec fn last_of_each_day(sorted: Seq<OhlcRaw>, k: int) -> Seq<DailyBar>
    decreases k,
{
    if k <= 0 {
        Seq::empty()
    } else if k == sorted.len() || raw_day(sorted[k]) != raw_day(sorted[k - 1]) {
        last_of_each_day(sorted, k - 1).push(bar_of(sorted[k - 1]))
    } else {
        last_of_each_day(sorted, k - 1)
    }
}

/// One candle per day from candles in order of time: of the candles of
/// one day in a row, the last. `None` where a timestamp is beyond
/// `TIMESTAMP_LIMIT`.
pub fn last_per_day(sorted: &Vec<OhlcRaw>) -> (bars: Option<Vec<DailyBar>>)
    ensures
        bars is Some <==> forall|i: int| 0 <= i < sorted.len() ==> raw_in_range(#[trigger] sorted[i]),
        bars matches Some(b) ==> b@ == last_of_each_day(sorted@, sorted.len() as int),
{
    let n = sorted.len();
    let mut days: Vec<i32> = Vec::new();
    let mut i: usize = 0;
    while i < n
        invariant
            n == sorted.len(),
            i <= n,
            days.len() == i,
            forall|j: int| 0 <= j < i ==> raw_in_range(#[trigger] sorted[j]),
            forall|j: int| 0 <= j < i ==> #[trigger] days[j] == raw_day(sorted[j]),
        decreases n - i,
    {
        match day_of_timestamp(to_seconds(sorted[i].0)) {
            Some(d) => {
                days.push(d);
            },
            None => {
                assert(!raw_in_range(sorted[i as int]));
                return None;
            },
        }
        i = i + 1;
    }
    let mut bars: Vec<DailyBar> = Vec::new();
    let mut k: usize = 0;
    while k < n
        invariant
            n == sorted.len(),
            days.len() == n,
            k <= n,
            forall|j: int| 0 <= j < n ==> #[trigger] days[j] == raw_day(sorted[j]),
            bars@ == last_of_each_day(sorted@, k as int),
        decreases n - k,
    {
        if k + 1 == n || days[k + 1] != days[k] {
            let r = sorted[k];
            bars.push(DailyBar { date: days[k], open: r.1, high: r.2, low: r.3, close: r.4 });
        }
        k = k + 1;
    }
    Some(bars)
}

/// The keys by which candles are put in order of time.
pub open spec fn time_keys(raws: Seq<OhlcRaw>) -> Seq<i128> {
    Seq::new(raws.len(), |i: int| (-(raws[i].0 as int)) as i128)
}

/// `sorted` holds the candles of `raws` in ascending order of time,
/// candles of one time in the order in which they arrived.
pub open spec fn is_time_sorted(sorted: Seq<OhlcRaw>, raws: Seq<OhlcRaw>) -> bool {
    exists|order: Seq<usize>| #[trigger]
        is_ranking(order, time_keys(raws), all_eligible(raws.len()), raws.len() as int)
            && order.len() == raws.len() && sorted.len() == raws.len() && forall|p: int|
            0 <= p < sorted.len() ==> sorted[p] == raws[order[p] as int]
}

/// The candles in order of time.
pub fn sort_by_time(raws: &Vec<OhlcRaw>) -> (sorted: Vec<OhlcRaw>)
    ensures
        is_time_sorted(sorted@, raws@),
{
    let n = raws.len();
    let mut keys: Vec<i128> = Vec::new();
    let mut flags: Vec<bool> = Vec::new();
    let mut i: usize = 0;
    while i < n
        invariant
            n == raws.len(),
            i <= n,
            keys.len() == i,
            flags.len() == i,
            keys@ == time_keys(raws@).subrange(0, i as int),
            flags@ == all_eligible(n as nat).subrange(0, i as int),
        decreases n - i,
    {
        keys.push(-(raws[i].0 as i128));
        flags.push(true);
        proof {
            assert(keys@ =~= time_keys(raws@).subrange(0, i + 1));
            assert(flags@ =~= all_eligible(n as nat).subrange(0, i + 1));
        }
        i = i + 1;
    }
    proof {
        assert(keys@ =~= time_keys(raws@));
        assert(flags@ =~= all_eligible(n as nat));
    }
    let order = rank_descending(&keys, &flags);
    proof {
        crate::ranking::lemma_ranking_of_all(order@, keys@, flags@);
    }
    let mut sorted: Vec<OhlcRaw> = Vec::new();
    let mut p: usize = 0;
    while p < n
        invariant
            n == raws.len(),
            order.len() == n,
            is_ranking(order@, keys@, flags@, n as int),
            p <= n,
            sorted.len() == p,
            forall|q: int| 0 <= q < p ==> sorted[q] == raws[order[q] as int],
        decreases n - p,
    {
        sorted.push(raws[order[p]]);
        p = p + 1;
    }
    sorted
}

/// One candle per day from the candles of a run: the candles are put in
/// order of time, and of the candles of each day the last is kept. `None`
/// where a timestamp is beyond `TIMESTAMP_LIMIT`.
pub fn daily_bars(raws: &Vec<OhlcRaw>) -> (bars: Option<Vec<DailyBar>>)
    ensures
        bars is Some <==> forall|i: int| 0 <= i < raws.len() ==> raw_in_range(#[trigger] raws[i]),
        bars matches Some(b) ==> exists|sorted: Seq<OhlcRaw>| #[trigger]
            is_time_sorted(sorted, raws@) && b@ == last_of_each_day(sorted, sorted.len() as int),
{
    let sorted = sort_by_time(raws);
    let bars = last_per_day(&sorted);
    proof {
        let order = choose|order: Seq<usize>| #[trigger]
            is_ranking(order, time_keys(raws@), all_eligible(raws.len() as nat), raws.len() as int)
                && order.len() == raws.len() && sorted.len() == raws.len() && forall|p: int|
                0 <= p < sorted.len() ==> sorted[p] == raws[order[p] as int];
        if forall|i: int| 0 <= i < raws.len() ==> raw_in_range(#[trigger] raws[i]) {
            assert forall|p: int| 0 <= p < sorted.len() implies raw_in_range(
                #[trigger] sorted[p],
            ) by {
                assert(raw_in_range(raws[order[p] as int]));
            }
        }
        if forall|p: int| 0 <= p < sorted.len() ==> raw_in_range(#[trigger] sorted[p]) {
            assert forall|i: int| 0 <= i < raws.len() implies raw_in_range(#[trigger] raws[i]) by {
                assert(all_eligible(raws.len() as nat)[i]);
                assert(order.contains(i as usize));
                let p = choose|p: int| 0 <= p < order.len() && order[p] == i as usize;
                assert(raw_in_range(sorted[p]));
            }
        }
    }
    bars
}


/// The coins among the first `k` whose id is not `bitcoin`.
pub open spec fn other_coins(coins: Seq<MarketCoin>, k: int) -> Seq<MarketCoin>
    decreases k,
{
    if k <= 0 {
        Seq::empty()
    } else if coins[k - 1].id@ == "bitcoin"@ {
        other_coins(coins, k - 1)
    } else {
        other_coins(coins, k - 1).push(coins[k - 1])
    }
}

/// The coins of a run other than the baseline, whose table is brought up
/// to date first.
pub fn without_baseline(coins: &Vec<MarketCoin>) -> (others: Vec<MarketCoin>)
    ensures
        others@ == other_coins(coins@, coins.len() as int),
{
    let baseline = "bitcoin".to_owned();
    let mut others: Vec<MarketCoin> = Vec::new();
    let mut k: usize = 0;
    while k < coins.len()
        invariant
            k <= coins.len(),
            baseline@ == "bitcoin"@,
            others@ == other_coins(coins@, k as int),
        decreases coins.len() - k,
    {
        if !(coins[k].id == baseline) {
            others.push(copy_coin(&coins[k]));
        }
        k = k + 1;
    }
    others
}

} // verus!

//! Scheduling: the time of day of a daily run, and what a cycle of the
//! daemon does after each of its stages.

use vstd::prelude::*;
use vstd::string::StrSliceExecFns;

verus! {

/// A time of day, to the minute.
#[derive(Clone, Copy, Debug, PartialEq, Eq)]
pub struct TimeOfDay {
    pub hour: u32,
    pub minute: u32,
}

/// The character is one of the ten decimal digits.
pub open spec fn is_digit(c: char) -> bool {
    '0' <= c <= '9'
}

/// The value of the first `k` characters, read as decimal digits.
pub open spec fn digits_value(s: Seq<char>, k: int) -> int
    decreases k,
{
    if k <= 0 {
        0
    } else {
        10 * digits_value(s, k - 1) + (s[k - 1] as int - '0' as int)
    }
}

/// The digits of a number: the text without a plus sign in front.
pub open spec fn unsigned_digits(text: Seq<char>) -> Seq<char> {
    if text.len() > 0 && text[0] == '+' {
        text.subrange(1, text.len() as int)
    } else {
        text
    }
}

/// The number that a text denotes: an optional plus sign, then one or
/// more decimal digits whose value fits 32 bits. Every other text, one
/// with white space or a minus sign among them, denotes none.
pub open spec fn parsed_u32(text: Seq<char>) -> Option<u32> {
    let digits = unsigned_digits(text);
    if digits.len() > 0 && (forall|i: int| 0 <= i < digits.len() ==> is_digit(#[trigger] digits[i]))
        && digits_value(digits, digits.len() as int) <= u32::MAX {
        Some(digits_value(digits, digits.len() as int) as u32)
    } else {
        None
    }
}

/// The value of digits does not shrink as more of them are read.
pub proof fn lemma_digits_value_grows(s: Seq<char>, k: int, n: int)
    requires
        0 <= k <= n <= s.len(),
        forall|i: int| 0 <= i < n ==> is_digit(#[trigger] s[i]),
    ensures
        0 <= digits_value(s, k) <= digits_value(s, n),
    decreases n,
{
    if k > 0 {
        lemma_digits_value_grows(s, k - 1, k - 1);
    }
    if k < n {
        lemma_digits_value_grows(s, k, n - 1);
    }
}

/// Reads a number of 32 bits without a sign, as `str::parse` does.
pub fn parse_u32(text: &str) -> (n: Option<u32>)
    ensures
        n == parsed_u32(text@),
{
    let len = text.unicode_len();
    let start: usize = if len > 0 && text.get_char(0) == '+' {
        1
    } else {
        0
    };
    if start == len {
        return None;
    }
    let ghost digits = unsigned_digits(text@);
    let mut value: u64 = 0;
    let mut i: usize = start;
    while i < len
        invariant
            len == text@.len(),
            start <= i <= len,
            start <= 1,
            digits == unsigned_digits(text@),
            digits.len() == len - start,
            forall|j: int| 0 <= j < digits.len() ==> digits[j] == text@[j + start],
            forall|j: int| 0 <= j < i - start ==> is_digit(#[trigger] digits[j]),
            value == digits_value(digits, i - start),
            value <= u32::MAX,
        decreases len - i,
    {
        let c = text.get_char(i);
        if !('0' <= c && c <= '9') {
            proof {
                assert(!is_digit(digits[i - start]));
            }
            return None;
        }
        let d: u64 = (c as u32 - '0' as u32) as u64;
        let next: u64 = 10 * value + d;
        proof {
            assert(digits[i - start] == c);
            assert(next == digits_value(digits, i - start + 1));
        }
        if next > 4_294_967_295 {
            proof {
                if forall|j: int| 0 <= j < digits.len() ==> is_digit(#[trigger] digits[j]) {
                    lemma_digits_value_grows(digits, i - start + 1, digits.len() as int);
                }
            }
            return None;
        }
        value = next;
        i = i + 1;
    }
    Some(value as u32)
}

/// Number of colons among the first `k` characters.
pub open spec fn colon_count(s: Seq<char>, k: int) -> int
    decreases k,
{
    if k <= 0 {
        0
    } else {
        colon_count(s, k - 1) + if s[k - 1] == ':' {
            1int
        } else {
            0int
        }
    }
}

/// Position of the first colon among the first `k` characters, or `k`
/// where there is none.
pub open spec fn first_colon(s: Seq<char>, k: int) -> int
    decreases k,
{
    if k <= 0 {
        0
    } else if first_colon(s, k - 1) < k - 1 {
        first_colon(s, k - 1)
    } else if s[k - 1] == ':' {
        k - 1
    } else {
        k
    }
}

/// The time of day of an hour below 24 and a minute below 60.
pub open spec fn time_of(hour: Option<u32>, minute: Option<u32>) -> Option<TimeOfDay> {
    match (hour, minute) {
        (Some(h), Some(m)) => if h < 24 && m < 60 {
            Some(TimeOfDay { hour: h, minute: m })
        } else {
            None
        },
        _ => None,
    }
}

/// The time of day that a text in the form hour:minute denotes: the text
/// holds one colon, with a number on either side.
pub open spec fn hhmm_of(s: Seq<char>) -> Option<TimeOfDay> {
    if colon_count(s, s.len() as int) == 1 {
        let at = first_colon(s, s.len() as int);
        time_of(parsed_u32(s.subrange(0, at)), parsed_u32(s.subrange(at + 1, s.len() as int)))
    } else {
        None
    }
}

/// The time of day of an hour and a minute that were read.
pub fn time_of_day(hour: Option<u32>, minute: Option<u32>) -> (t: Option<TimeOfDay>)
    ensures
        t == time_of(hour, minute),
{
    match (hour, minute) {
        (Some(h), Some(m)) => {
            if h < 24 && m < 60 {
                Some(TimeOfDay { hour: h, minute: m })
            } else {
                None
            }
        },
        _ => None,
    }
}

/// The first colon stands among the first `k` characters exactly where
/// there is a colon among them.
pub proof fn lemma_first_colon_bound(s: Seq<char>, k: int)
    requires
        0 <= k <= s.len(),
    ensures
        0 <= first_colon(s, k) <= k,
        colon_count(s, k) >= 0,
        colon_count(s, k) > 0 <==> first_colon(s, k) < k,
    decreases k,
{
    if k > 0 {
        lemma_first_colon_bound(s, k - 1);
    }
}

/// Reads a time of day in the form hour:minute.
pub fn parse_hhmm(s: &str) -> (t: Option<TimeOfDay>)
    ensures
        t == hhmm_of(s@),
{
    let n = s.unicode_len();
    let mut count: usize = 0;
    let mut at: usize = 0;
    let mut i: usize = 0;
    while i < n
        invariant
            n == s@.len(),
            i <= n,
            count == colon_count(s@, i as int),
            count <= i,
            at == first_colon(s@, i as int),
            at <= i,
        decreases n - i,
    {
        let c = s.get_char(i);
        proof {
            lemma_first_colon_bound(s@, i as int);
        }
        if c == ':' {
            if count == 0 {
                at = i;
            }
            count = count + 1;
        } else if count == 0 {
            at = i + 1;
        }
        i = i + 1;
    }
    if count != 1 {
        return None;
    }
    proof {
        lemma_first_colon_bound(s@, n as int);
    }
    let hour = parse_u32(s.substring_char(0, at));
    let minute = parse_u32(s.substring_char(at + 1, n));
    time_of_day(hour, minute)
}

/// Whether a run at `at` is still due today, `now` seconds after midnight.
pub fn runs_today(now: u32, at: TimeOfDay) -> (b: bool)
    requires
        at.hour < 24,
        at.minute < 60,
    ensures
        b == (now < at.hour * 3600 + at.minute * 60),
{
    now < at.hour * 3600 + at.minute * 60
}

/// The milliseconds to wait for a span of milliseconds: none for a span
/// that is negative.
pub fn wait_millis(span: i64) -> (ms: u64)
    ensures
        ms == if span < 0 {
            0
        } else {
            span as int
        },
{
    if span < 0 {
        0
    } else {
        span as u64
    }
}

/// The stages of a cycle of the daemon, in order.
#[derive(Clone, Copy, Debug, PartialEq, Eq)]
pub enum Stage {
    FetchData,
    GenerateSignals,
    AnalyzeStrategies,
    GeneratePlaybooks,
    WriteSummary,
}

/// What the daemon does next.
#[derive(Clone, Copy, Debug, PartialEq, Eq)]
pub enum Step {
    /// Run this stage of the current cycle.
    Run(Stage),
    /// Sleep this many seconds, then start the next cycle.
    SleepThenRestart(u64),
    /// Stop: the single cycle is done.
    Finish,
    /// Stop with the error of the stage.
    Fail,
}

/// The seconds of an interval in minutes, the longest possible where they
/// are beyond the range of the counter.
pub open spec fn interval_seconds(check_interval: u64) -> u64 {
    if check_interval * 60 > u64::MAX {
        u64::MAX
    } else {
        (check_interval * 60) as u64
    }
}

/// The step after a stage. A stage that succeeded is followed by the next
/// one, the last by a sleep in continuous mode and by the end otherwise. A
/// stage that failed ends a single cycle with its error; in continuous mode
/// the cycle is given up and the next starts after a sleep, except that a
/// failure to write the summary always ends the daemon.
pub open spec fn step_after(stage: Stage, ok: bool, continuous: bool, check_interval: u64) -> Step {
    if ok {
        match stage {
            Stage::FetchData => Step::Run(Stage::GenerateSignals),
            Stage::GenerateSignals => Step::Run(Stage::AnalyzeStrategies),
            Stage::AnalyzeStrategies => Step::Run(Stage::GeneratePlaybooks),
            Stage::GeneratePlaybooks => Step::Run(Stage::WriteSummary),
            Stage::WriteSummary => if continuous {
                Step::SleepThenRestart(interval_seconds(check_interval))
            } else {
                Step::Finish
            },
        }
    } else if stage == Stage::WriteSummary || !continuous {
        Step::Fail
    } else {
        Step::SleepThenRestart(interval_seconds(check_interval))
    }
}

/// The seconds of an interval in minutes.
pub fn seconds_of_interval(check_interval: u64) -> (s: u64)
    ensures
        s == interval_seconds(check_interval),
{
    if check_interval > u64::MAX / 60 {
        u64::MAX
    } else {
        check_interval * 60
    }
}

/// The first step of a cycle.
pub fn first_step() -> (s: Step)
    ensures
        s == Step::Run(Stage::FetchData),
{
    Step::Run(Stage::FetchData)
}

/// Decides the step after a stage.
pub fn next_step(stage: Stage, ok: bool, continuous: bool, check_interval: u64) -> (s: Step)
    ensures
        s == step_after(stage, ok, continuous, check_interval),
{
    if ok {
        match stage {
            Stage::FetchData => Step::Run(Stage::GenerateSignals),
            Stage::GenerateSignals => Step::Run(Stage::AnalyzeStrategies),
            Stage::AnalyzeStrategies => Step::Run(Stage::GeneratePlaybooks),
            Stage::GeneratePlaybooks => Step::Run(Stage::WriteSummary),
            Stage::WriteSummary => {
                if continuous {
                    Step::SleepThenRestart(seconds_of_interval(check_interval))
                } else {
                    Step::Finish
                }
            },
        }
    } else {
        match stage {
            Stage::WriteSummary => Step::Fail,
            _ => {
                if continuous {
                    Step::SleepThenRestart(seconds_of_interval(check_interval))
                } else {
                    Step::Fail
                }
            },
        }
    }
}

/// The schedule of a timer that fires every `check_interval` minutes, as
/// five fields for minute, hour, day, month and weekday: hourly unless the
/// interval is 30, 15 or 5 minutes.
pub open spec fn cron_text(check_interval: u64) -> Seq<char> {
    if check_interval == 30 {
        "0,30 * * * *"@
    } else if check_interval == 15 {
        "0,15,30,45 * * * *"@
    } else if check_interval == 5 {
        "*/5 * * * *"@
    } else {
        "0 * * * *"@
    }
}

/// The schedule of a timer that fires every `check_interval` minutes.
pub fn cron_expression(check_interval: u64) -> (t: &'static str)
    ensures
        t@ == cron_text(check_interval),
{
    if check_interval == 30 {
        "0,30 * * * *"
    } else if check_interval == 15 {
        "0,15,30,45 * * * *"
    } else if check_interval == 5 {
        "*/5 * * * *"
    } else {
        "0 * * * *"
    }
}

} // verus!

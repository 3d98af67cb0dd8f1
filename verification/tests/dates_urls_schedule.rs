use crypto_strategy::dates::{
    day_end, day_of_timestamp, day_start, format_date, last_valid_date, later_date, parse_date,
};
use crypto_strategy::schedule::{
    cron_expression, first_step, next_step, parse_hhmm, parse_u32, runs_today,
    seconds_of_interval, time_of_day, wait_millis, Stage, Step, TimeOfDay,
};
use crypto_strategy::urls::{markets_url, ohlc_range_url};

// 15 May 2015
const DAY: i32 = 735_733;
const MIDNIGHT: i64 = 1_431_648_000;

#[test]
fn day_of_a_timestamp() {
    assert_eq!(day_of_timestamp(MIDNIGHT), Some(DAY));
    assert_eq!(day_of_timestamp(MIDNIGHT - 1), Some(DAY - 1));
    assert_eq!(day_of_timestamp(MIDNIGHT + 86_399), Some(DAY));
    assert_eq!(day_of_timestamp(0), Some(719_163));
    assert_eq!(day_of_timestamp(-1), Some(719_162));
    assert_eq!(day_of_timestamp(7_000_000_000_001), None);
    assert_eq!(day_of_timestamp(-7_000_000_000_001), None);
    assert!(day_of_timestamp(7_000_000_000_000).is_some());
    assert!(day_of_timestamp(-7_000_000_000_000).is_some());
}

#[test]
fn timestamps_of_a_day() {
    assert_eq!(day_start(DAY), Some(MIDNIGHT));
    assert_eq!(day_end(DAY), Some(MIDNIGHT + 86_399));
    assert_eq!(day_start(719_163), Some(0));
    assert_eq!(day_start(719_162), Some(-86_400));
    assert_eq!(day_start(90_000_001), None);
    assert_eq!(day_end(-90_000_001), None);
    assert!(day_start(90_000_000).is_some());
    assert!(day_end(-90_000_000).is_some());
}

#[test]
fn dates_are_read_as_year_month_day() {
    assert_eq!(parse_date("2015-05-15"), Some(DAY));
    assert_eq!(parse_date("1970-01-01"), Some(719_163));
    assert_eq!(parse_date("0001-01-01"), Some(1));
    assert_eq!(parse_date("2015-02-29"), None);
    assert_eq!(parse_date("date"), None);
    assert_eq!(parse_date(""), None);
    assert_eq!(parse_date("2015/05/15"), None);
}

#[test]
fn dates_are_written_as_year_month_day() {
    assert_eq!(format_date(DAY), Some("2015-05-15".to_string()));
    assert_eq!(format_date(719_163), Some("1970-01-01".to_string()));
    assert_eq!(format_date(1), Some("0001-01-01".to_string()));
    assert_eq!(format_date(90_000_001), None);
    assert_eq!(parse_date(&format_date(738_000).unwrap()), Some(738_000));
}

#[test]
fn the_last_date_of_a_table() {
    let fields: Vec<String> = ["date", "2015-05-14", "2015-05-15", "", "x"].iter().map(|s| s.to_string()).collect();
    assert_eq!(last_valid_date(&fields), Some(DAY));
    assert_eq!(last_valid_date(&vec!["date".to_string()]), None);
    assert_eq!(last_valid_date(&vec![]), None);
    assert_eq!(later_date(Some(1), None), Some(1));
    assert_eq!(later_date(Some(1), Some(2)), Some(2));
    assert_eq!(later_date(None, None), None);
}

#[test]
fn address_of_a_range_of_candles() {
    assert_eq!(
        ohlc_range_url("bitcoin", "usd", 1_431_648_000, 1_447_200_000),
        Some("https://pro-api.coingecko.com/api/v3/coins/bitcoin/ohlc/range?vs_currency=usd&from=1431648000&to=1447200000&interval=daily".to_string())
    );
    assert_eq!(
        ohlc_range_url("a b", "e&u", -5, 0),
        Some("https://pro-api.coingecko.com/api/v3/coins/a%20b/ohlc/range?vs_currency=e%26u&from=-5&to=0&interval=daily".to_string())
    );
}

#[test]
fn address_of_a_page_of_the_listing() {
    assert_eq!(
        markets_url("usd", 250, 2),
        Some("https://pro-api.coingecko.com/api/v3/coins/markets?vs_currency=usd&order=market_cap_desc&per_page=250&page=2&price_change_percentage=24h&sparkline=false".to_string())
    );
}

#[test]
fn time_of_day_is_read_as_hour_and_minute() {
    assert_eq!(parse_hhmm("05:10"), Some(TimeOfDay { hour: 5, minute: 10 }));
    assert_eq!(parse_hhmm("23:59"), Some(TimeOfDay { hour: 23, minute: 59 }));
    assert_eq!(parse_hhmm("0:0"), Some(TimeOfDay { hour: 0, minute: 0 }));
    assert_eq!(parse_hhmm("24:00"), None);
    assert_eq!(parse_hhmm("12:60"), None);
    assert_eq!(parse_hhmm("12"), None);
    assert_eq!(parse_hhmm("12:30:00"), None);
    assert_eq!(parse_hhmm(":30"), None);
    assert_eq!(parse_hhmm("12:"), None);
    assert_eq!(parse_hhmm("a:b"), None);
    assert_eq!(parse_hhmm(" 1:2"), None);
    assert_eq!(parse_hhmm(""), None);
    assert_eq!(parse_hhmm("-1:00"), None);
}

#[test]
fn time_of_day_takes_a_plus_sign_and_leading_zeros() {
    assert_eq!(parse_hhmm("+7:+05"), Some(TimeOfDay { hour: 7, minute: 5 }));
    assert_eq!(parse_hhmm("0000000000007:030"), Some(TimeOfDay { hour: 7, minute: 30 }));
    assert_eq!(parse_hhmm("+:30"), None);
    assert_eq!(parse_hhmm("++7:30"), None);
    assert_eq!(parse_hhmm("7+:30"), None);
    assert_eq!(parse_hhmm("7 :30"), None);
    assert_eq!(parse_hhmm("7:30 "), None);
    assert_eq!(parse_hhmm("٧:30"), None);
    assert_eq!(parse_hhmm("4294967296:00"), None);
    assert_eq!(parse_hhmm("7:99999999999999999999999"), None);
}

#[test]
fn numbers_are_read_as_the_standard_library_reads_them() {
    let texts = [
        "", "+", "-", "0", "+0", "-0", "7", "007", "+42", "4294967295", "4294967296", "+4294967295",
        "42949672950", "99999999999999999999", "00000000004294967295", "1 ", " 1", "1_000", "1e3",
        "0x10", "٣", "１２", "12a", "a12", "+-1", "--1", "1+", "3.0",
    ];
    for t in texts {
        assert_eq!(parse_u32(t), t.parse::<u32>().ok(), "{:?}", t);
    }
    assert_eq!(parse_u32("4294967295"), Some(u32::MAX));
    assert_eq!(parse_u32("+42"), Some(42));
    assert_eq!(parse_u32("4294967296"), None);
}

#[test]
fn time_of_day_from_numbers() {
    assert_eq!(time_of_day(Some(7), Some(30)), Some(TimeOfDay { hour: 7, minute: 30 }));
    assert_eq!(time_of_day(Some(24), Some(0)), None);
    assert_eq!(time_of_day(Some(0), Some(60)), None);
    assert_eq!(time_of_day(None, Some(0)), None);
    assert_eq!(time_of_day(Some(0), None), None);
}

#[test]
fn a_run_is_due_today_before_its_time() {
    let at = TimeOfDay { hour: 5, minute: 10 };
    assert!(runs_today(5 * 3600 + 10 * 60 - 1, at));
    assert!(!runs_today(5 * 3600 + 10 * 60, at));
    assert!(!runs_today(86_399, at));
}

#[test]
fn waits_are_never_negative() {
    assert_eq!(wait_millis(-5), 0);
    assert_eq!(wait_millis(0), 0);
    assert_eq!(wait_millis(1500), 1500);
}

#[test]
fn stages_follow_each_other() {
    assert_eq!(first_step(), Step::Run(Stage::FetchData));
    assert_eq!(next_step(Stage::FetchData, true, false, 60), Step::Run(Stage::GenerateSignals));
    assert_eq!(next_step(Stage::GenerateSignals, true, true, 60), Step::Run(Stage::AnalyzeStrategies));
    assert_eq!(next_step(Stage::AnalyzeStrategies, true, false, 60), Step::Run(Stage::GeneratePlaybooks));
    assert_eq!(next_step(Stage::GeneratePlaybooks, true, false, 60), Step::Run(Stage::WriteSummary));
}

#[test]
fn a_single_cycle_ends_after_the_summary() {
    assert_eq!(next_step(Stage::WriteSummary, true, false, 60), Step::Finish);
    assert_eq!(next_step(Stage::WriteSummary, true, true, 60), Step::SleepThenRestart(3600));
}

#[test]
fn a_failed_stage_ends_a_single_cycle_and_restarts_a_continuous_one() {
    for stage in [Stage::FetchData, Stage::GenerateSignals, Stage::AnalyzeStrategies, Stage::GeneratePlaybooks] {
        assert_eq!(next_step(stage, false, false, 15), Step::Fail);
        assert_eq!(next_step(stage, false, true, 15), Step::SleepThenRestart(900));
    }
    assert_eq!(next_step(Stage::WriteSummary, false, true, 15), Step::Fail);
    assert_eq!(next_step(Stage::WriteSummary, false, false, 15), Step::Fail);
}

#[test]
fn intervals_in_seconds_saturate() {
    assert_eq!(seconds_of_interval(0), 0);
    assert_eq!(seconds_of_interval(60), 3600);
    assert_eq!(seconds_of_interval(u64::MAX / 60), u64::MAX / 60 * 60);
    assert_eq!(seconds_of_interval(u64::MAX / 60 + 1), u64::MAX);
}

#[test]
fn timer_schedules() {
    assert_eq!(cron_expression(60), "0 * * * *");
    assert_eq!(cron_expression(30), "0,30 * * * *");
    assert_eq!(cron_expression(15), "0,15,30,45 * * * *");
    assert_eq!(cron_expression(5), "*/5 * * * *");
    assert_eq!(cron_expression(7), "0 * * * *");
}

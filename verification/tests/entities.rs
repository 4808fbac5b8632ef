use chrono::DateTime;
use trading_core::domain::entities::candle::{Candle, Direction};
use trading_core::domain::entities::data::Data;
use trading_core::domain::entities::session::{refsessions, RefSession, RefSessions, Session};
use trading_core::domain::entities::structures::{OneDStructureLabel, TwoDStructureLabel};
use trading_core::domain::entities::symbol::{str_equal, Symbol};
use trading_core::domain::entities::timerange::{timeranges, Timerange};
use trading_core::utils::time::{day_number, millis_of_day, MAX_TIMESTAMP_MS, MIN_TIMESTAMP_MS};

const MINUTE: Timerange = Timerange { label: "1min", duration_ms: 60_000 };
const FIVE: Timerange = Timerange { label: "5min", duration_ms: 300_000 };

fn candle(ts: i64, open: i64, high: i64, low: i64, close: i64) -> Candle {
    Candle::new(Symbol::EURUSD, MINUTE, ts, open, high, low, close, 10)
}

#[test]
fn direction_texts() {
    assert_eq!(Direction::Bullish.into_text(), "bullish");
    assert_eq!(Direction::Bearish.into_text(), "bearish");
    assert_eq!(Direction::Doji.into_text(), "doji");
}

#[test]
fn symbol_from_text_and_back() {
    assert_eq!(Symbol::get_from_str("EURUSD"), Symbol::EURUSD);
    assert_eq!(Symbol::get_from_str("EUR/USD"), Symbol::EURUSD);
    assert_eq!(Symbol::get_from_str("eurusd"), Symbol::Unknown);
    assert_eq!(Symbol::get_from_str(""), Symbol::Unknown);
    assert_eq!(Symbol::EURUSD.into_text(), "EUR/USD");
    assert_eq!(Symbol::Unknown.into_text(), "Unknown");
    for s in [Symbol::EURUSD, Symbol::Unknown] {
        assert_eq!(Symbol::get_from_str(s.into_text()), s);
    }
}

#[test]
fn string_equality() {
    assert!(str_equal("abc", "abc"));
    assert!(!str_equal("abc", "abd"));
    assert!(!str_equal("abc", "ab"));
    assert!(str_equal("", ""));
}

#[test]
fn standard_timeranges() {
    let ranges = timeranges();
    let labels: Vec<&str> = ranges.iter().map(|t| t.label).collect();
    let durations: Vec<i64> = ranges.iter().map(|t| t.duration_ms).collect();
    assert_eq!(labels, vec!["1min", "5min", "15min", "30min", "1h", "4h", "1d", "1w"]);
    assert_eq!(
        durations,
        vec![60_000, 300_000, 900_000, 1_800_000, 3_600_000, 14_400_000, 86_400_000, 604_800_000]
    );
}

#[test]
fn candle_is_aligned_on_its_timerange() {
    let c = Candle::new(Symbol::EURUSD, FIVE, 90_061_000, 100, 120, 90, 110, 7);
    assert_eq!(c.timestamp, 90_000_000);
    assert_eq!(c.end_timestamp, 90_300_000);
    assert_eq!((c.open, c.high, c.low, c.close, c.volume), (100, 120, 90, 110, 7));
    assert_eq!(c.timerange.label, "5min");
}

#[test]
fn candle_alignment_rounds_toward_zero_before_the_epoch() {
    let c = Candle::new(Symbol::EURUSD, MINUTE, -1, 1, 1, 1, 1, 0);
    assert_eq!(c.timestamp, 0);
    assert_eq!(c.end_timestamp, 60_000);
    let d = Candle::new(Symbol::EURUSD, MINUTE, -60_001, 1, 1, 1, 1, 0);
    assert_eq!(d.timestamp, -60_000);
}

#[test]
fn candle_direction_follows_close_against_open() {
    assert_eq!(candle(0, 100, 110, 90, 105).direction, Direction::Bullish);
    assert_eq!(candle(0, 100, 110, 90, 95).direction, Direction::Bearish);
    assert_eq!(candle(0, 100, 110, 90, 100).direction, Direction::Doji);
}

#[test]
fn timestamp_range_matches_chrono() {
    assert!(DateTime::from_timestamp_millis(MIN_TIMESTAMP_MS).is_some());
    assert!(DateTime::from_timestamp_millis(MIN_TIMESTAMP_MS - 1).is_none());
    assert!(DateTime::from_timestamp_millis(MAX_TIMESTAMP_MS).is_some());
    assert!(DateTime::from_timestamp_millis(MAX_TIMESTAMP_MS + 1).is_none());
}

#[test]
fn day_and_time_of_day() {
    assert_eq!(day_number(0), 0);
    assert_eq!(day_number(86_399_999), 0);
    assert_eq!(day_number(86_400_000), 1);
    assert_eq!(day_number(-1), -1);
    assert_eq!(millis_of_day(-1), 86_399_999);
    assert_eq!(millis_of_day(90_061_000), 3_661_000);
    let dt = DateTime::from_timestamp_millis(-1).unwrap();
    assert_eq!(dt.date_naive().to_string(), "1969-12-31");
}

#[test]
fn reference_session_table() {
    let table = refsessions();
    assert_eq!(table.len(), 3);
    assert_eq!(table[0].label, "Asian Session");
    assert_eq!((table[0].start, table[0].end), (79_200_000, 27_000_000));
    assert_eq!((table[1].start, table[1].end), (27_000_000, 43_200_000));
    assert_eq!((table[2].start, table[2].end), (43_200_000, 79_200_000));
    assert_eq!(RefSessions::from_session(&table[1]), Some(RefSessions::London));
    let other = RefSession { label: "London Session", start: 0, end: 1 };
    assert_eq!(RefSessions::from_session(&other), None);
    assert_eq!(RefSessions::get_start_end_time(&RefSessions::NewYork), (43_200_000, 79_200_000));
}

#[test]
fn session_of_a_time_of_day() {
    assert_eq!(RefSessions::from_timestamp(0), Some(RefSessions::Asian));
    assert_eq!(RefSessions::from_timestamp(26_999_999), Some(RefSessions::Asian));
    assert_eq!(RefSessions::from_timestamp(27_000_000), Some(RefSessions::London));
    assert_eq!(RefSessions::from_timestamp(43_200_000), Some(RefSessions::NewYork));
    assert_eq!(RefSessions::from_timestamp(79_199_999), Some(RefSessions::NewYork));
    assert_eq!(RefSessions::from_timestamp(79_200_000), Some(RefSessions::Asian));
}

#[test]
fn session_windows() {
    assert_eq!(
        RefSessions::get_start_end_datetime(&RefSessions::London, 32_400_000),
        (27_000_000, 43_200_000)
    );
    // The overnight session is looked up on the instant's own day, evening
    // and morning alike: it runs from 22:00 back to 07:30 of that day.
    assert_eq!(
        RefSessions::get_start_end_datetime(&RefSessions::Asian, 82_800_000),
        (79_200_000, 27_000_000)
    );
    assert_eq!(
        RefSessions::get_start_end_datetime(&RefSessions::Asian, 10_800_000),
        (79_200_000, 27_000_000)
    );
    // 2024-01-02 03:00 UTC.
    assert_eq!(
        RefSessions::get_start_end_datetime(&RefSessions::Asian, 1_704_164_400_000),
        (1_704_232_800_000, 1_704_180_600_000)
    );
}

#[test]
fn session_opened_by_a_candle() {
    let c = candle(32_400_000, 100, 120, 90, 110);
    let s = Session::new(&c);
    assert_eq!(s.label, RefSessions::London);
    assert_eq!((s.start_time, s.end_time), (27_000_000, 43_200_000));
    assert_eq!((s.open, s.high, s.low, s.close, s.volume), (100, 120, 90, 110, 10));
    assert!(s.contains(&c));
    assert!(!s.contains(&candle(43_200_000, 1, 1, 1, 1)));
    assert!(s.contains(&candle(27_000_000, 1, 1, 1, 1)));
}

#[test]
fn overnight_session_opened_in_the_morning_does_not_hold_its_candle() {
    let c = candle(10_800_000, 100, 120, 90, 110);
    let s = Session::new(&c);
    assert_eq!(s.label, RefSessions::Asian);
    assert!(!s.contains(&c));
}

#[test]
fn structure_label_texts() {
    assert_eq!(OneDStructureLabel::BOS.into_text(), "BoS");
    assert_eq!(OneDStructureLabel::CHOCH.into_text(), "CHoCH");
    assert_eq!(OneDStructureLabel::RH.into_text(), "RH");
    assert_eq!(OneDStructureLabel::RL.into_text(), "RL");
    assert_eq!(TwoDStructureLabel::OB.into_text(), "OB");
    assert_eq!(TwoDStructureLabel::FVG.into_text(), "FVG");
}

#[test]
fn graphql_mutation_per_kind() {
    let c = candle(0, 1, 1, 1, 1);
    assert_eq!(
        Data::Candle(c).graphql_mutation(),
        "mutation ($input: CandleInput!) { insertCandle(input: $input) }"
    );
    let s = Session::new(&candle(32_400_000, 1, 1, 1, 1));
    assert_eq!(
        Data::Session(s).graphql_mutation(),
        "mutation ($input: SessionInput!) { insertSession(input: $input) }"
    );
}

#[test]
fn candle_with_a_negative_duration() {
    let backwards = Timerange { label: "back", duration_ms: -60_000 };
    let c = Candle::new(Symbol::EURUSD, backwards, 100_000, 1, 1, 1, 1, 0);
    assert_eq!(c.timestamp, 60_000);
    assert_eq!(c.end_timestamp, 0);
    let d = Candle::new(Symbol::EURUSD, backwards, -100_000, 1, 1, 1, 1, 0);
    assert_eq!(d.timestamp, -60_000);
}

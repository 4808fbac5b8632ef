use dashmap::DashMap;
use trading_core::application::candle::consume::aggregate_candle;
use trading_core::application::structures::fvg::{fvg_step, process_fvg};
use trading_core::application::structures::session::process_session;
use trading_core::application::structures::trend::{
    get_trend, process_queue, process_trend, retain_after, step_breaks_exec, trend_step_exec,
    trend_would_return,
};
use trading_core::domain::entities::candle::{Candle, Direction};
use trading_core::domain::entities::data::{Data, Dispatch};
use trading_core::domain::entities::session::{RefSessions, Session};
use trading_core::domain::entities::structures::{OneDStructureLabel, TwoDStructureLabel};
use trading_core::domain::entities::symbol::Symbol;
use trading_core::domain::entities::timerange::Timerange;
use trading_core::domain::entities::trend::{TrendBook, TrendState};
use trading_core::domain::series::{series_key, symbol_key, SeriesKey};

const MINUTE: Timerange = Timerange { label: "1min", duration_ms: 60_000 };
const FIVE: Timerange = Timerange { label: "5min", duration_ms: 300_000 };

fn candle(ts: i64, open: i64, high: i64, low: i64, close: i64) -> Candle {
    Candle::new(Symbol::EURUSD, MINUTE, ts, open, high, low, close, 10)
}

fn empty_state() -> TrendState {
    TrendState { trend: None, subtrend: None }
}

fn one_d(d: &Dispatch) -> (bool, OneDStructureLabel, i64, i64, Direction) {
    match d {
        Dispatch::Insert(Data::OneDStructure(s)) => (true, s.label, s.timestamp, s.price, s.direction),
        Dispatch::Send(Data::OneDStructure(s)) => (false, s.label, s.timestamp, s.price, s.direction),
        _ => panic!("not a single-price structure"),
    }
}

#[test]
fn trend_opens_on_a_trending_candle_only() {
    let mut st = empty_state();
    let (out, at) = trend_step_exec(&mut st, &candle(60_000, 100, 100, 100, 100));
    assert!(out.is_empty() && at.is_none() && st.trend.is_none());
    let (out, at) = trend_step_exec(&mut st, &candle(60_000, 100, 120, 90, 110));
    assert!(at.is_none());
    assert_eq!(out.len(), 2);
    assert!(matches!(out[0], Dispatch::Insert(Data::Trend(_))));
    assert!(matches!(out[1], Dispatch::Send(Data::Trend(_))));
    let t = st.trend.unwrap();
    assert_eq!((t.direction, t.high, t.low, t.start_time), (Direction::Bullish, 120, 90, 60_000));
    assert_eq!((t.relative_high, t.relative_low), (Some(120), Some(90)));
}

#[test]
fn pull_back_then_break_of_structure() {
    let mut st = empty_state();
    trend_step_exec(&mut st, &candle(60_000, 100, 120, 90, 110));
    let (out, _) = trend_step_exec(&mut st, &candle(120_000, 110, 112, 100, 105));
    assert_eq!(out.len(), 2);
    let s = st.subtrend.unwrap();
    assert_eq!((s.direction, s.high, s.low, s.start_time), (Direction::Bearish, 112, 100, 120_000));
    let (out, at) = trend_step_exec(&mut st, &candle(180_000, 105, 115, 104, 113));
    assert!(at.is_none());
    assert_eq!(out.len(), 8);
    assert_eq!(one_d(&out[0]), (true, OneDStructureLabel::BOS, 180_000, 112, Direction::Bullish));
    assert_eq!(one_d(&out[1]), (false, OneDStructureLabel::BOS, 180_000, 112, Direction::Bullish));
    assert_eq!(one_d(&out[2]), (true, OneDStructureLabel::RH, 120_000, 112, Direction::Bullish));
    assert_eq!(one_d(&out[4]), (true, OneDStructureLabel::RL, 120_000, 100, Direction::Bullish));
    assert!(st.subtrend.is_none());
    let t = st.trend.unwrap();
    assert_eq!((t.low, t.end_time), (100, 180_000));
}

#[test]
fn pull_back_stretches_without_break() {
    let mut st = empty_state();
    trend_step_exec(&mut st, &candle(60_000, 100, 120, 90, 110));
    trend_step_exec(&mut st, &candle(120_000, 110, 112, 100, 105));
    let (out, _) = trend_step_exec(&mut st, &candle(180_000, 96, 111, 95, 108));
    assert_eq!(out.len(), 2);
    let s = st.subtrend.unwrap();
    assert_eq!((s.low, s.last_relative_low, s.last_relative_low_datetime), (95, 95, 180_000));
}

#[test]
fn change_of_character() {
    let mut st = empty_state();
    trend_step_exec(&mut st, &candle(60_000, 100, 120, 90, 110));
    trend_step_exec(&mut st, &candle(120_000, 110, 112, 100, 105));
    let (out, at) = trend_step_exec(&mut st, &candle(180_000, 95, 96, 80, 85));
    assert_eq!(at, Some(120_000));
    assert_eq!(out.len(), 6);
    match out[0] {
        Dispatch::Insert(Data::TwoDStructure(ob)) => {
            assert_eq!(ob.label, TwoDStructureLabel::OB);
            assert_eq!((ob.high, ob.low, ob.timestamp, ob.direction), (112, 100, 180_000, Direction::Bearish));
        },
        _ => panic!("expected an order block"),
    }
    assert_eq!(one_d(&out[2]), (true, OneDStructureLabel::CHOCH, 180_000, 100, Direction::Bearish));
    assert!(st.trend.is_some() && st.subtrend.is_some());
}

#[test]
fn trend_through_a_store() {
    let books: DashMap<SeriesKey, TrendBook> = DashMap::new();
    let mut books = books;
    let (out, at) = get_trend(&mut books, &candle(60_000, 100, 120, 90, 110));
    assert_eq!(out.len(), 2);
    assert!(at.is_none());
    let key = series_key(Symbol::EURUSD, &MINUTE);
    let book = books.get(&key).unwrap();
    assert!(book.state.trend.is_some());
    assert!(book.queue.is_empty());
}

#[test]
fn queue_keeps_later_candles() {
    let mut q = vec![candle(60_000, 1, 1, 1, 1), candle(120_000, 1, 1, 1, 1), candle(180_000, 1, 1, 1, 1)];
    retain_after(&mut q, 120_000);
    assert_eq!(q.iter().map(|c| c.timestamp).collect::<Vec<_>>(), vec![180_000]);
    let mut books: DashMap<SeriesKey, TrendBook> = DashMap::new();
    let key = series_key(Symbol::EURUSD, &MINUTE);
    process_queue(&mut books, key, 0);
    assert!(books.get(&key).is_none());
    books.insert(key, TrendBook { state: empty_state(), queue: vec![candle(60_000, 1, 1, 1, 1), candle(120_000, 1, 1, 1, 1)] });
    process_queue(&mut books, key, 60_000);
    assert_eq!(books.get(&key).unwrap().queue.len(), 1);
}

#[test]
fn trend_processing_queues_the_candle() {
    let mut books: DashMap<SeriesKey, TrendBook> = DashMap::new();
    let out = process_trend(&mut books, &candle(60_000, 100, 120, 90, 110));
    assert_eq!(out.len(), 2);
    let out = process_trend(&mut books, &candle(120_000, 110, 112, 100, 105));
    assert_eq!(out.len(), 2);
    let key = series_key(Symbol::EURUSD, &MINUTE);
    let book = books.get(&key).unwrap();
    assert_eq!(book.queue.len(), 2);
    assert!(book.state.subtrend.is_some());
}

#[test]
fn fair_value_gap_on_three_bullish_candles() {
    let mut w = Vec::new();
    assert!(fvg_step(&mut w, &candle(0, 100, 112, 99, 110)).is_empty());
    assert!(fvg_step(&mut w, &candle(60_000, 110, 111, 100, 101)).is_empty());
    let out = fvg_step(&mut w, &candle(120_000, 90, 97, 89, 95));
    assert_eq!(w.len(), 3);
    assert_eq!(out.len(), 2);
    match out[1] {
        Dispatch::Send(Data::TwoDStructure(g)) => {
            assert_eq!(g.label, TwoDStructureLabel::FVG);
            assert_eq!((g.high, g.low, g.direction, g.timestamp), (95, 100, Direction::Bullish, 120_000));
        },
        _ => panic!("expected a fair value gap"),
    }
    let out = fvg_step(&mut w, &candle(180_000, 95, 96, 94, 95));
    assert_eq!(w.len(), 3);
    assert_eq!(w[0].timestamp, 60_000);
    assert!(out.is_empty());
}

#[test]
fn fair_value_gap_on_bearish_candles_and_mixed_windows() {
    let mut w = Vec::new();
    fvg_step(&mut w, &candle(0, 100, 101, 90, 95));
    fvg_step(&mut w, &candle(60_000, 95, 96, 94, 95));
    let out = fvg_step(&mut w, &candle(120_000, 110, 111, 104, 105));
    assert_eq!(out.len(), 2);
    match out[0] {
        Dispatch::Insert(Data::TwoDStructure(g)) => {
            assert_eq!((g.high, g.low, g.direction), (100, 105, Direction::Bearish));
        },
        _ => panic!("expected a fair value gap"),
    }
    let mut m = Vec::new();
    fvg_step(&mut m, &candle(0, 100, 112, 99, 110));
    fvg_step(&mut m, &candle(60_000, 100, 112, 99, 110));
    assert!(fvg_step(&mut m, &candle(120_000, 100, 101, 80, 90)).is_empty());
}

#[test]
fn fair_value_gap_through_a_store() {
    let mut windows: DashMap<SeriesKey, Vec<Candle>> = DashMap::new();
    process_fvg(&mut windows, &candle(0, 100, 112, 99, 110));
    process_fvg(&mut windows, &candle(60_000, 110, 111, 100, 101));
    let out = process_fvg(&mut windows, &candle(120_000, 90, 97, 89, 95));
    assert_eq!(out.len(), 2);
    assert_eq!(windows.get(&series_key(Symbol::EURUSD, &MINUTE)).unwrap().len(), 3);
}

#[test]
fn sessions_extend_and_roll_over() {
    let mut sessions: DashMap<SeriesKey, Session> = DashMap::new();
    let out = process_session(&mut sessions, &candle(32_400_000, 100, 120, 90, 110));
    assert_eq!(out.len(), 1);
    assert!(matches!(out[0], Dispatch::Send(Data::Session(_))));
    let out = process_session(&mut sessions, &candle(36_000_000, 110, 130, 95, 125));
    assert_eq!(out.len(), 1);
    let key = symbol_key(Symbol::EURUSD);
    {
        let s = sessions.get(&key).unwrap();
        assert_eq!((s.high, s.low, s.open, s.close, s.volume), (130, 90, 100, 125, 20));
    }
    let out = process_session(&mut sessions, &candle(46_800_000, 125, 126, 120, 121));
    assert_eq!(out.len(), 2);
    match (out[0], out[1]) {
        (Dispatch::Insert(Data::Session(old)), Dispatch::Send(Data::Session(new))) => {
            assert_eq!(old.label, RefSessions::London);
            assert_eq!(new.label, RefSessions::NewYork);
            assert_eq!((new.start_time, new.end_time), (43_200_000, 79_200_000));
        },
        _ => panic!("expected the finished session then the new one"),
    }
}

#[test]
fn candles_aggregate_per_timerange() {
    let mut candles: DashMap<SeriesKey, Candle> = DashMap::new();
    let mut books: DashMap<SeriesKey, TrendBook> = DashMap::new();
    let mut windows: DashMap<SeriesKey, Vec<Candle>> = DashMap::new();
    let key = series_key(Symbol::EURUSD, &FIVE);
    let out = aggregate_candle(&mut candles, &mut books, &mut windows, &candle(60_000, 100, 110, 95, 105), &FIVE);
    assert!(out.is_empty());
    {
        let c = candles.get(&key).unwrap();
        assert_eq!((c.timestamp, c.end_timestamp, c.timerange.label), (0, 300_000, "5min"));
    }
    let out = aggregate_candle(&mut candles, &mut books, &mut windows, &candle(120_000, 105, 130, 80, 90), &FIVE);
    assert!(out.is_empty());
    {
        let c = candles.get(&key).unwrap();
        assert_eq!((c.open, c.high, c.low, c.close, c.volume), (100, 130, 80, 90, 20));
        assert_eq!(c.direction, Direction::Bullish);
    }
    let out = aggregate_candle(&mut candles, &mut books, &mut windows, &candle(300_000, 90, 95, 85, 86), &FIVE);
    assert_eq!(out.len(), 2);
    assert!(matches!(out[0], Dispatch::Insert(Data::Trend(_))));
    let c = candles.get(&key).unwrap();
    assert_eq!((c.timestamp, c.open, c.direction), (300_000, 90, Direction::Bearish));
    assert_eq!(windows.get(&key).unwrap().len(), 1);
    assert_eq!(books.get(&key).unwrap().queue.len(), 1);
}

#[test]
fn cutting_the_queue_twice_changes_nothing() {
    let mut q = vec![candle(0, 1, 1, 1, 1), candle(120_000, 1, 1, 1, 1), candle(60_000, 1, 1, 1, 1)];
    retain_after(&mut q, 30_000);
    let once: Vec<i64> = q.iter().map(|c| c.timestamp).collect();
    assert_eq!(once, vec![120_000, 60_000]);
    retain_after(&mut q, 30_000);
    assert_eq!(q.iter().map(|c| c.timestamp).collect::<Vec<_>>(), once);
}

#[test]
fn session_opened_in_the_evening_does_not_hold_its_candle() {
    let mut sessions: DashMap<SeriesKey, Session> = DashMap::new();
    let c = candle(82_800_000, 1, 2, 1, 2);
    process_session(&mut sessions, &c);
    let s = *sessions.get(&symbol_key(Symbol::EURUSD)).unwrap();
    assert_eq!((s.label, s.start_time, s.end_time), (RefSessions::Asian, 79_200_000, 27_000_000));
    assert!(!s.contains(&c));
}

#[test]
fn trend_processing_returns_only_without_break_or_reversal() {
    let mut books: DashMap<SeriesKey, TrendBook> = DashMap::new();
    let c1 = candle(60_000, 100, 120, 90, 110);
    assert!(trend_would_return(&mut books, &c1));
    process_trend(&mut books, &c1);
    let c2 = candle(120_000, 110, 112, 100, 105);
    assert!(trend_would_return(&mut books, &c2));
    process_trend(&mut books, &c2);
    let key = series_key(Symbol::EURUSD, &MINUTE);
    let st = books.get(&key).unwrap().state;
    // A close above the pull-back's high breaks its structure: never returns.
    let breaking = candle(180_000, 105, 115, 104, 113);
    assert!(step_breaks_exec(&st, &breaking));
    assert!(!trend_would_return(&mut books, &breaking));
    // A close below the trend's low reverses it; the replay meets the same
    // candle again and cuts the queue it holds: never returns.
    let reversing = candle(180_000, 95, 96, 80, 85);
    assert!(!step_breaks_exec(&st, &reversing));
    assert!(!trend_would_return(&mut books, &reversing));
    // A candle that stretches the pull-back returns.
    let stretching = candle(180_000, 96, 111, 95, 108);
    assert!(trend_would_return(&mut books, &stretching));
    assert_eq!(books.get(&key).unwrap().queue.len(), 2);
}

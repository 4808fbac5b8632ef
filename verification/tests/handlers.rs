use dashmap::DashMap;
use trading_core::domain::entities::candle::{Candle, Direction};
use trading_core::domain::entities::session::{RefSessions, Session};
use trading_core::domain::entities::symbol::Symbol;
use trading_core::domain::entities::timerange::Timerange;
use trading_core::domain::entities::trend::{TrendBook, TrendState};
use trading_core::domain::series::{series_key, SeriesKey};
use trading_core::handlers::candle::aggregate_candle;
use trading_core::handlers::sessions::{
    get_right_session, get_sessions_start_end, is_same_session, process_session,
    should_create_new_session,
};
use trading_core::handlers::structures::{gap_step, processfairvaluegap, Published, Report};
use trading_core::handlers::trends::{
    get_trends, named_step_exec, process_queue, process_trend, set_trend_state, trend_process_defined,
    TrendAction,
};

const MINUTE: Timerange = Timerange { label: "1min", duration_ms: 60_000 };
const FIVE: Timerange = Timerange { label: "5min", duration_ms: 300_000 };

fn candle(ts: i64, open: i64, high: i64, low: i64, close: i64) -> Candle {
    Candle::new(Symbol::EURUSD, MINUTE, ts, open, high, low, close, 10)
}

fn empty_state() -> TrendState {
    TrendState { trend: None, subtrend: None }
}

fn names(reports: &[Report]) -> Vec<(bool, &'static str)> {
    reports
        .iter()
        .map(|r| {
            let (sent, p) = match r {
                Report::Send(p) => (true, p),
                Report::Store(p) => (false, p),
            };
            let name = match p {
                Published::OneD(s) => s.structure,
                Published::TwoD(s) => s.structure,
                Published::Trend(_) => "trend",
                Published::Candle(_) => "candle",
                Published::Session(_) => "session",
            };
            (sent, name)
        })
        .collect()
}

fn published(acts: &[TrendAction]) -> Vec<Report> {
    acts.iter()
        .filter_map(|a| match a {
            TrendAction::Publish(r) => Some(*r),
            _ => None,
        })
        .collect()
}

/// Performs the state changes among `acts`, in order; queue cuts apply to
/// the queue of the series `key`.
fn perform(books: &mut DashMap<SeriesKey, TrendBook>, key: SeriesKey, acts: &[TrendAction]) {
    for a in acts {
        match a {
            TrendAction::Publish(_) => {},
            TrendAction::SetState(k, st) => set_trend_state(books, *k, *st),
            TrendAction::CutQueue(dt) => process_queue(books, key, *dt).unwrap(),
        }
    }
}

#[test]
fn named_trend_opens_silently() {
    let mut st = empty_state();
    let (out, at) = named_step_exec(&mut st, &candle(60_000, 100, 120, 90, 110));
    assert!(published(&out).is_empty() && at.is_none());
    assert_eq!(out.len(), 1);
    assert!(matches!(out[0], TrendAction::SetState(_, s) if s.trend.is_some()));
    assert_eq!(st.trend.unwrap().direction, Direction::Bullish);
}

#[test]
fn named_break_of_structure() {
    let mut st = empty_state();
    named_step_exec(&mut st, &candle(60_000, 100, 120, 90, 110));
    named_step_exec(&mut st, &candle(120_000, 110, 112, 100, 105));
    let (acts, at) = named_step_exec(&mut st, &candle(180_000, 105, 115, 104, 113));
    assert!(at.is_none());
    // The new state is set only after every structure is published.
    assert_eq!(acts.len(), 7);
    assert!(matches!(acts[6], TrendAction::SetState(_, s) if s.subtrend.is_none()));
    let out = published(&acts);
    assert_eq!(
        names(&out),
        vec![
            (true, "Break Of Structure"),
            (false, "Break Of Structure"),
            (true, "Relative High"),
            (true, "Relative Low"),
            (false, "Relative High"),
            (false, "Relative Low"),
        ]
    );
    match out[0] {
        Report::Send(Published::OneD(b)) => assert_eq!((b.price, b.direction), (112, "Bullish")),
        _ => panic!("expected the break of structure"),
    }
    match out[2] {
        Report::Send(Published::OneD(rh)) => assert_eq!((rh.price, rh.direction, rh.timestamp), (112, "Relative High", 120_000)),
        _ => panic!("expected the relative high"),
    }
    assert!(st.subtrend.is_none());
    assert_eq!(st.trend.unwrap().low, 100);
}

#[test]
fn named_change_of_character_drops_the_trend() {
    let mut st = empty_state();
    named_step_exec(&mut st, &candle(60_000, 100, 120, 90, 110));
    named_step_exec(&mut st, &candle(120_000, 110, 112, 100, 105));
    let (acts, at) = named_step_exec(&mut st, &candle(180_000, 95, 96, 80, 85));
    assert_eq!(at, Some(120_000));
    // The extended trend is set before it is sent, and dropped after.
    assert_eq!(acts.len(), 8);
    assert!(matches!(acts[4], TrendAction::SetState(_, s) if s.trend.is_some() && s.subtrend.is_some()));
    assert!(matches!(acts[7], TrendAction::SetState(_, s) if s.trend.is_none() && s.subtrend.is_none()));
    let out = published(&acts);
    assert_eq!(
        names(&out),
        vec![
            (true, "Order Block"),
            (false, "Order Block"),
            (true, "Change Of Character"),
            (false, "Change Of Character"),
            (true, "trend"),
            (false, "trend"),
        ]
    );
    match out[0] {
        Report::Send(Published::TwoD(ob)) => {
            assert_eq!((ob.high, ob.low, ob.timestamp, ob.direction), (112, 100, 120_000, "Bearish"))
        },
        _ => panic!("expected the order block"),
    }
    match out[2] {
        Report::Send(Published::OneD(c)) => assert_eq!((c.price, c.timestamp), (90, 180_000)),
        _ => panic!("expected the change of character"),
    }
    assert!(st.trend.is_none() && st.subtrend.is_none());
}

#[test]
fn named_trend_processing_replays_the_queue() {
    let mut books: DashMap<SeriesKey, TrendBook> = DashMap::new();
    let key = series_key(Symbol::EURUSD, &MINUTE);
    let acts = process_trend(&mut books, &candle(60_000, 100, 120, 90, 110), Symbol::EURUSD, &MINUTE);
    assert!(published(&acts).is_empty());
    perform(&mut books, key, &acts);
    let acts = process_trend(&mut books, &candle(120_000, 110, 112, 100, 105), Symbol::EURUSD, &MINUTE);
    assert!(published(&acts).is_empty());
    perform(&mut books, key, &acts);
    let acts = process_trend(&mut books, &candle(180_000, 95, 96, 80, 85), Symbol::EURUSD, &MINUTE);
    assert_eq!(published(&acts).len(), 6);
    // Nothing changes the state until the actions are performed.
    {
        let book = books.get(&key).unwrap();
        assert_eq!(book.queue.len(), 3);
        assert!(book.state.subtrend.is_some());
    }
    perform(&mut books, key, &acts);
    let book = books.get(&key).unwrap();
    assert_eq!(book.queue.iter().map(|c| c.timestamp).collect::<Vec<_>>(), vec![180_000]);
    let t = book.state.trend.unwrap();
    assert_eq!((t.direction, t.start_time), (Direction::Bearish, 180_000));
}

#[test]
fn named_trends_through_a_store() {
    let mut books: DashMap<SeriesKey, TrendBook> = DashMap::new();
    let (out, at) = get_trends(&mut books, &candle(60_000, 100, 120, 90, 110));
    assert!(published(&out).is_empty() && at.is_none());
    let key = series_key(Symbol::EURUSD, &MINUTE);
    assert!(books.get(&key).is_none());
    perform(&mut books, key, &out);
    assert!(books.get(&key).unwrap().state.trend.is_some());
}

#[test]
fn named_queue_needs_a_series() {
    let mut books: DashMap<SeriesKey, TrendBook> = DashMap::new();
    let key = series_key(Symbol::EURUSD, &MINUTE);
    assert_eq!(process_queue(&mut books, key, 0), Err("No queue found for the given key".to_string()));
    books.insert(key, TrendBook { state: empty_state(), queue: vec![candle(0, 1, 1, 1, 1), candle(60_000, 1, 1, 1, 1)] });
    assert_eq!(process_queue(&mut books, key, 0), Ok(()));
    assert_eq!(books.get(&key).unwrap().queue.len(), 1);
}

#[test]
fn named_gap_on_wicks() {
    let mut windows: DashMap<SeriesKey, Vec<Candle>> = DashMap::new();
    let r = processfairvaluegap(&mut windows, &candle(0, 100, 110, 95, 108), Symbol::EURUSD, &MINUTE).unwrap();
    assert!(r.is_empty());
    let r = processfairvaluegap(&mut windows, &candle(60_000, 108, 125, 107, 108), Symbol::EURUSD, &MINUTE).unwrap();
    assert!(r.is_empty());
    let r = processfairvaluegap(&mut windows, &candle(120_000, 121, 130, 115, 128), Symbol::EURUSD, &MINUTE).unwrap();
    assert_eq!(names(&r), vec![(false, "Fair Value Gap"), (true, "Fair Value Gap")]);
    match r[0] {
        Report::Store(Published::TwoD(g)) => {
            assert_eq!((g.high, g.low, g.direction, g.timestamp), (115, 110, "bullish", 120_000))
        },
        _ => panic!("expected the gap"),
    }
    let r = processfairvaluegap(&mut windows, &candle(180_000, 128, 129, 100, 101), Symbol::EURUSD, &MINUTE).unwrap();
    assert!(r.is_empty());
    assert_eq!(windows.get(&series_key(Symbol::EURUSD, &MINUTE)).unwrap().len(), 3);
}

#[test]
fn named_gap_window_overflow() {
    let mut w = vec![candle(0, 1, 1, 1, 1); 4];
    let r = gap_step(&mut w, &candle(60_000, 1, 2, 1, 2), Symbol::EURUSD, &MINUTE);
    assert!(r.is_err());
    assert_eq!(r.err().unwrap(), "Too many candles in the list");
    assert_eq!(w.len(), 5);
}

#[test]
fn named_gap_bearish_ignoring_sideways_candles() {
    let mut w = vec![candle(0, 100, 101, 95, 96)];
    gap_step(&mut w, &candle(60_000, 96, 97, 90, 96), Symbol::EURUSD, &MINUTE).unwrap();
    let r = gap_step(&mut w, &candle(120_000, 90, 92, 80, 85), Symbol::EURUSD, &MINUTE).unwrap();
    assert_eq!(r.len(), 2);
    match r[1] {
        Report::Send(Published::TwoD(g)) => assert_eq!((g.high, g.low, g.direction), (95, 92, "bearish")),
        _ => panic!("expected the gap"),
    }
}

#[test]
fn named_session_lookup() {
    assert_eq!(get_right_session(0).unwrap().label, "Asian Session");
    assert_eq!(get_right_session(27_000_000).unwrap().label, "Asian Session");
    assert_eq!(get_right_session(27_000_001).unwrap().label, "London Session");
    assert_eq!(get_right_session(43_200_000).unwrap().label, "London Session");
    assert_eq!(get_right_session(50_000_000).unwrap().label, "New York Session");
    assert_eq!(get_right_session(79_199_999).unwrap().label, "New York Session");
    assert_eq!(get_right_session(79_200_000).unwrap().label, "Asian Session");
    assert_eq!(get_right_session(79_200_001).unwrap().label, "Asian Session");
    let asian = get_right_session(0).unwrap();
    assert_eq!(get_sessions_start_end(10_800_000, &asian), (-7_200_000, 27_000_000));
    assert_eq!(get_sessions_start_end(82_800_000, &asian), (79_200_000, 113_400_000));
    let london = get_right_session(32_400_000).unwrap();
    assert_eq!(get_sessions_start_end(32_400_000, &london), (27_000_000, 43_200_000));
}

#[test]
fn named_session_bounds_are_inclusive() {
    let s = Session {
        symbol: Symbol::EURUSD,
        label: RefSessions::London,
        start_time: 27_000_000,
        end_time: 43_200_000,
        high: 1,
        low: 1,
        open: 1,
        close: 1,
        volume: 1,
    };
    assert!(is_same_session(&s, &candle(43_200_000, 1, 1, 1, 1)));
    assert!(is_same_session(&s, &candle(27_000_000, 1, 1, 1, 1)));
    assert!(!is_same_session(&s, &candle(43_260_000, 1, 1, 1, 1)));
}

#[test]
fn named_sessions_extend_and_roll_over() {
    let mut sessions: DashMap<SeriesKey, Session> = DashMap::new();
    let (create, r) = should_create_new_session(&mut sessions, &candle(32_400_000, 1, 1, 1, 1));
    assert!(create && r.is_empty());
    assert!(process_session(&mut sessions, &candle(32_400_000, 100, 120, 90, 110), Symbol::EURUSD).unwrap().is_empty());
    assert!(process_session(&mut sessions, &candle(43_200_000, 110, 130, 95, 125), Symbol::EURUSD).unwrap().is_empty());
    let key = series_key(Symbol::EURUSD, &MINUTE);
    {
        let s = sessions.get(&key).unwrap();
        assert_eq!((s.high, s.low, s.close, s.volume, s.label), (130, 90, 125, 20, RefSessions::London));
    }
    let r = process_session(&mut sessions, &candle(43_260_000, 125, 126, 120, 121), Symbol::EURUSD).unwrap();
    assert_eq!(names(&r), vec![(false, "session")]);
    let s = sessions.get(&key).unwrap();
    assert_eq!((s.label, s.start_time, s.end_time), (RefSessions::NewYork, 43_200_000, 79_200_000));
}

#[test]
fn named_candles_aggregate_per_timerange() {
    let mut candles: DashMap<SeriesKey, Candle> = DashMap::new();
    let mut windows: DashMap<SeriesKey, Vec<Candle>> = DashMap::new();
    let mut books: DashMap<SeriesKey, TrendBook> = DashMap::new();
    let key = series_key(Symbol::EURUSD, &FIVE);
    let r = aggregate_candle(&mut candles, &mut windows, &mut books, &candle(60_000, 100, 110, 95, 105), Symbol::EURUSD, &FIVE);
    assert!(r.closing.is_empty() && r.trend.is_empty());
    assert_eq!(names(&[r.opening]), vec![(true, "candle")]);
    {
        let c = candles.get(&key).unwrap();
        assert_eq!((c.timestamp, c.timerange.label), (0, "5min"));
    }
    let r = aggregate_candle(&mut candles, &mut windows, &mut books, &candle(240_000, 105, 130, 80, 90), Symbol::EURUSD, &FIVE);
    assert!(r.closing.is_empty() && r.trend.is_empty());
    {
        let c = candles.get(&key).unwrap();
        assert_eq!((c.high, c.low, c.close, c.volume, c.direction), (130, 80, 90, 20, Direction::Bullish));
    }
    let r = aggregate_candle(&mut candles, &mut windows, &mut books, &candle(300_000, 90, 95, 85, 86), Symbol::EURUSD, &FIVE);
    assert_eq!(names(&r.closing), vec![(false, "candle"), (true, "candle")]);
    assert_eq!(names(&[r.opening]), vec![(true, "candle")]);
    assert_eq!(r.trend.len(), 1);
    let c = *candles.get(&key).unwrap();
    assert_eq!((c.timestamp, c.open), (300_000, 90));
    assert!(books.get(&key).unwrap().state.trend.is_none());
    perform(&mut books, key, &r.trend);
    assert!(books.get(&key).unwrap().state.trend.is_some());
    assert_eq!(windows.get(&key).unwrap().len(), 1);
}

#[test]
fn named_session_opened_between_seven_and_half_past_misses_its_candle() {
    let t = 26_100_000;
    let asian = get_right_session(t).unwrap();
    assert_eq!(asian.label, "Asian Session");
    let (start, end) = get_sessions_start_end(t, &asian);
    assert_eq!((start, end), (79_200_000, 113_400_000));
    let mut sessions: DashMap<SeriesKey, Session> = DashMap::new();
    let c = candle(t, 1, 2, 1, 2);
    process_session(&mut sessions, &c, Symbol::EURUSD).unwrap();
    let s = *sessions.get(&series_key(Symbol::EURUSD, &MINUTE)).unwrap();
    assert!(!is_same_session(&s, &c));
}

#[test]
fn named_failed_trend_send_leaves_the_trend_in_place() {
    let mut books: DashMap<SeriesKey, TrendBook> = DashMap::new();
    let key = series_key(Symbol::EURUSD, &MINUTE);
    for c in [candle(60_000, 100, 120, 90, 110), candle(120_000, 110, 112, 100, 105)] {
        let acts = process_trend(&mut books, &c, Symbol::EURUSD, &MINUTE);
        perform(&mut books, key, &acts);
    }
    let acts = process_trend(&mut books, &candle(180_000, 95, 96, 80, 85), Symbol::EURUSD, &MINUTE);
    // Performed up to the send of the trend, which fails: the extended trend
    // and its pull-back stay, and the queue is not cut.
    let sent_trend = acts
        .iter()
        .position(|a| matches!(a, TrendAction::Publish(Report::Send(Published::Trend(_)))))
        .unwrap();
    perform(&mut books, key, &acts[..sent_trend]);
    let book = books.get(&key).unwrap();
    let t = book.state.trend.unwrap();
    assert_eq!((t.direction, t.end_time), (Direction::Bullish, 180_000));
    assert!(book.state.subtrend.is_some());
    assert_eq!(book.queue.len(), 3);
}

#[test]
fn named_session_is_kept_under_the_given_symbol() {
    let mut sessions: DashMap<SeriesKey, Session> = DashMap::new();
    // The candle's own series has no session: one is opened for the given
    // symbol.
    let c = candle(32_400_000, 100, 120, 90, 110);
    assert!(process_session(&mut sessions, &c, Symbol::Unknown).unwrap().is_empty());
    let unknown = series_key(Symbol::Unknown, &MINUTE);
    assert_eq!(sessions.get(&unknown).unwrap().symbol, Symbol::Unknown);
    assert!(sessions.get(&series_key(Symbol::EURUSD, &MINUTE)).is_none());
    // With a session of the candle's own series holding it, the given
    // symbol's session is the one extended; missing, the call fails.
    process_session(&mut sessions, &c, Symbol::EURUSD).unwrap();
    let d = candle(32_460_000, 110, 130, 80, 115);
    process_session(&mut sessions, &d, Symbol::Unknown).unwrap();
    assert_eq!((sessions.get(&unknown).unwrap().high, sessions.get(&unknown).unwrap().low), (130, 80));
    sessions.remove(&unknown);
    assert_eq!(
        process_session(&mut sessions, &d, Symbol::Unknown).unwrap_err(),
        "Session not found for key: Unknown-1min".to_string()
    );
    assert!(sessions.get(&unknown).is_none());
}

#[test]
fn named_trend_queue_is_the_given_series() {
    let mut books: DashMap<SeriesKey, TrendBook> = DashMap::new();
    let queue_key = series_key(Symbol::Unknown, &FIVE);
    let own_key = series_key(Symbol::EURUSD, &MINUTE);
    let c = candle(60_000, 100, 120, 90, 110);
    assert!(trend_process_defined(&mut books, &c, Symbol::Unknown, &FIVE));
    let acts = process_trend(&mut books, &c, Symbol::Unknown, &FIVE);
    // Queued under the given series; the trend opens on the candle's own.
    assert_eq!(books.get(&queue_key).unwrap().queue.len(), 1);
    assert!(matches!(acts[0], TrendAction::SetState(k, s) if k == own_key && s.trend.is_some()));
    perform(&mut books, queue_key, &acts);
    assert!(books.get(&own_key).unwrap().state.trend.is_some());
    assert!(books.get(&queue_key).unwrap().state.trend.is_none());
}

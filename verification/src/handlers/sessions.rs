use vstd::prelude::*;

use dashmap::DashMap;

use crate::application::structures::session::{saturating_sum, session_in};
use crate::domain::entities::candle::Candle;
use crate::domain::entities::session::{
    is_entry_of, refsessions, session_close, session_kind, session_label, session_open, RefSession,
    RefSessions, Session,
};
use crate::domain::entities::symbol::{symbol_text, Symbol};
use crate::domain::entities::timerange::Timerange;
use crate::domain::series::{key_of, put_session, series_key, session_slots, take_session, SeriesKey};
use crate::handlers::structures::{Published, Report};
use crate::utils::time::{
    day_number, day_of, hour_of, millis_of_day, ms_of_day, valid_timestamp, DAY_MS, MAX_TIMESTAMP_MS,
    MIN_TIMESTAMP_MS,
};
use crate::utils::utils::{in_closed_window, is_in_timerange};

verus! {

/// The first reference session (in table order) whose window, both ends
/// included, holds the time `t` of day.
pub open spec fn closed_session_at(t: int) -> RefSessions {
    if in_closed_window(session_open(RefSessions::Asian) as int, session_close(RefSessions::Asian) as int, t) {
        RefSessions::Asian
    } else if in_closed_window(session_open(RefSessions::London) as int, session_close(RefSessions::London) as int, t) {
        RefSessions::London
    } else {
        RefSessions::NewYork
    }
}

/// The candle starts inside the session's window, both ends included.
pub open spec fn within_session(s: Session, c: Candle) -> bool {
    s.start_time <= c.timestamp <= s.end_time
}

pub fn is_same_session(session: &Session, candle: &Candle) -> (b: bool)
    ensures
        b == within_session(*session, *candle),
{
    candle.timestamp >= session.start_time && candle.timestamp <= session.end_time
}

/// The reference session whose window, both ends included, holds the
/// time of day of `timestamp`; the first of them in table order. Every time
/// of day falls in one.
pub fn get_right_session(timestamp: i64) -> (res: Result<RefSession, String>)
    ensures
        res is Ok,
        res matches Ok(s) && is_entry_of(s, closed_session_at(ms_of_day(timestamp as int))),
{
    let table = refsessions();
    let t = millis_of_day(timestamp);
    let mut i: usize = 0;
    while i < 3
        invariant
            table@.len() == 3,
            forall|j: int| 0 <= j < 3 ==> is_entry_of(#[trigger] table@[j], session_kind(j)),
            0 <= t < DAY_MS,
            t == ms_of_day(timestamp as int),
            0 <= i <= 3,
            forall|j: int|
                0 <= j < i ==> !in_closed_window(
                    session_open(session_kind(j)) as int,
                    session_close(session_kind(j)) as int,
                    t as int,
                ),
        decreases 3 - i,
    {
        let session = table[i];
        assert(is_entry_of(table@[i as int], session_kind(i as int)));
        if is_in_timerange(session.start, session.end, t as u32) {
            proof {
                if i == 1 {
                    assert(!in_closed_window(session_open(session_kind(0)) as int, session_close(session_kind(0)) as int, t as int));
                } else if i == 2 {
                    assert(!in_closed_window(session_open(session_kind(0)) as int, session_close(session_kind(0)) as int, t as int));
                    assert(!in_closed_window(session_open(session_kind(1)) as int, session_close(session_kind(1)) as int, t as int));
                }
            }
            return Ok(session);
        }
        i = i + 1;
    }
    assert(!in_closed_window(session_open(session_kind(0)) as int, session_close(session_kind(0)) as int, t as int));
    assert(!in_closed_window(session_open(session_kind(1)) as int, session_close(session_kind(1)) as int, t as int));
    assert(!in_closed_window(session_open(session_kind(2)) as int, session_close(session_kind(2)) as int, t as int));
    assert(false);
    Err(String::new())
}

/// The days on which the window of the session `s` looked up for `ts`
/// starts and ends: for the Asian session, the previous day before 07:00 and
/// the next day from 07:00 on.
pub open spec fn closed_session_days(s: RefSession, ts: int) -> (int, int) {
    let d = day_of(ts);
    if s.label@ == session_label(RefSessions::Asian) {
        if hour_of(ts) < 7 {
            (d - 1, d)
        } else {
            (d, d + 1)
        }
    } else {
        (d, d)
    }
}

/// The window of `s` looked up for `ts` lies on dates a UTC date can hold.
pub open spec fn closed_session_days_defined(s: RefSession, ts: int) -> bool {
    &&& valid_timestamp(ts)
    &&& day_of(MIN_TIMESTAMP_MS as int) <= closed_session_days(s, ts).0
    &&& closed_session_days(s, ts).1 <= day_of(MAX_TIMESTAMP_MS as int)
}

/// The instants at which the window of `s` looked up for `ts` starts and ends.
pub open spec fn closed_session_bounds(s: RefSession, ts: int) -> (int, int) {
    let (sd, ed) = closed_session_days(s, ts);
    (sd * DAY_MS + s.start, ed * DAY_MS + s.end)
}

#[verifier::rlimit(30)]
pub fn get_sessions_start_end(timestamp: i64, session: &RefSession) -> (bounds: (i64, i64))
    requires
        closed_session_days_defined(*session, timestamp as int),
    ensures
        bounds.0 == closed_session_bounds(*session, timestamp as int).0,
        bounds.1 == closed_session_bounds(*session, timestamp as int).1,
{
    let day = day_number(timestamp);
    let mut start_date = day;
    let mut end_date = day;
    if crate::domain::entities::symbol::str_equal(session.label, "Asian Session") {
        let hour = millis_of_day(timestamp) / 3_600_000;
        assert(hour == hour_of(timestamp as int));
        if hour < 7 {
            start_date = start_date - 1;
        } else {
            end_date = end_date + 1;
        }
    }
    (start_date * DAY_MS + session.start as i64, end_date * DAY_MS + session.end as i64)
}

/// The session of `symbol` that a candle opens when it falls in no open
/// session.
pub open spec fn named_opened_session(c: Candle, symbol: Symbol) -> Session {
    let k = closed_session_at(ms_of_day(c.timestamp as int));
    let s = RefSession { label: session_name(k), start: session_open(k), end: session_close(k) };
    let (start, end) = closed_session_bounds(s, c.timestamp as int);
    Session {
        symbol,
        label: k,
        start_time: start as i64,
        end_time: end as i64,
        high: c.high,
        low: c.low,
        open: c.open,
        close: c.close,
        volume: c.volume,
    }
}

/// The name of a reference session, as a static string.
pub open spec fn session_name(k: RefSessions) -> &'static str {
    match k {
        RefSessions::Asian => "Asian Session",
        RefSessions::London => "London Session",
        RefSessions::NewYork => "New York Session",
    }
}

/// A candle can open a session.
pub open spec fn named_session_can_open(c: Candle) -> bool {
    let k = closed_session_at(ms_of_day(c.timestamp as int));
    closed_session_days_defined(
        RefSession { label: session_name(k), start: session_open(k), end: session_close(k) },
        c.timestamp as int,
    )
}

/// A session extended by a candle that falls in it.
pub open spec fn named_extended_session(s: Session, c: Candle) -> Session {
    Session {
        high: if c.high > s.high { c.high } else { s.high },
        low: if c.low < s.low { c.low } else { s.low },
        close: c.close,
        volume: saturating_sum(s.volume, c.volume),
        ..s
    }
}

/// Whether a candle needs a new session, and what is stored on the way: the
/// session in progress is stored when the candle falls outside it.
pub open spec fn needs_new_session(cur: Option<Session>, c: Candle) -> (bool, Seq<Report>) {
    match cur {
        None => (true, seq![]),
        Some(s) => if within_session(s, c) {
            (false, seq![])
        } else {
            (true, seq![Report::Store(Published::Session(s))])
        },
    }
}

/// Finds whether the candle falls outside the session in progress for its
/// series; stores the finished session.
pub fn should_create_new_session(sessions: &mut DashMap<SeriesKey, Session>, candle: &Candle) -> (res: (bool, Vec<Report>))
    ensures
        session_slots(*final(sessions)) == session_slots(*old(sessions)),
        (res.0, res.1@) == needs_new_session(
            session_in(session_slots(*old(sessions)), key_of(candle.symbol, candle.timerange)),
            *candle,
        ),
{
    let key = series_key(candle.symbol, &candle.timerange);
    let mut reports: Vec<Report> = Vec::new();
    match take_session(sessions, key) {
        None => {
            assert(session_slots(*final(sessions)) =~= session_slots(*old(sessions)));
            (true, reports)
        },
        Some(s) => {
            put_session(sessions, key, s);
            assert(session_slots(*final(sessions)) =~= session_slots(*old(sessions)));
            if !is_same_session(&s, candle) {
                reports.push(Report::Store(Published::Session(s)));
                return (true, reports);
            }
            (false, reports)
        },
    }
}

/// The text of the key of the session of `symbol` at `timerange`.
pub open spec fn session_key_text(symbol: Symbol, timerange: Timerange) -> Seq<char> {
    symbol_text(symbol) + "-"@ + timerange.label@
}

/// Applies a candle to the session of `symbol` at the candle's timerange.
/// Whether a new session is needed is decided on the session of the
/// candle's own series (which is stored when the candle falls outside it).
/// A new session, opened where the candle's time of day falls, is set for
/// `symbol`; otherwise the session of `symbol` is extended by the candle, and
/// the call fails when `symbol` has no session at that timerange.
pub fn process_session(sessions: &mut DashMap<SeriesKey, Session>, candle: &Candle, symbol: Symbol) -> (res: Result<
    Vec<Report>,
    String,
>)
    requires
        needs_new_session(
            session_in(session_slots(*old(sessions)), key_of(candle.symbol, candle.timerange)),
            *candle,
        ).0 ==> named_session_can_open(*candle),
    ensures
        ({
            let m = session_slots(*old(sessions));
            let k = key_of(symbol, candle.timerange);
            let (create, reports) = needs_new_session(session_in(m, key_of(candle.symbol, candle.timerange)), *candle);
            if create {
                &&& res is Ok
                &&& res->Ok_0@ == reports
                &&& session_slots(*final(sessions)) == m.insert(k, named_opened_session(*candle, symbol))
            } else if m.contains_key(k) {
                &&& res is Ok
                &&& res->Ok_0@ == reports
                &&& session_slots(*final(sessions)) == m.insert(k, named_extended_session(m[k], *candle))
            } else {
                &&& res is Err
                &&& res->Err_0@ == "Session not found for key: "@ + session_key_text(symbol, candle.timerange)
                &&& session_slots(*final(sessions)) == m
            }
        }),
{
    let key = series_key(symbol, &candle.timerange);
    let (create, reports) = should_create_new_session(sessions, candle);
    if create {
        let reference = match get_right_session(candle.timestamp) {
            Ok(s) => s,
            Err(e) => return Err(e),
        };
        let ghost k = closed_session_at(ms_of_day(candle.timestamp as int));
        proof {
            reveal_strlit("Asian Session");
            reveal_strlit("London Session");
            reveal_strlit("New York Session");
            assert(reference.label@ == session_name(k)@);
        }
        let (start, end) = get_sessions_start_end(candle.timestamp, &reference);
        let label = match RefSessions::from_session(&reference) {
            Some(l) => l,
            None => RefSessions::NewYork,
        };
        let session = Session {
            symbol,
            label,
            start_time: start,
            end_time: end,
            high: candle.high,
            low: candle.low,
            open: candle.open,
            close: candle.close,
            volume: candle.volume,
        };
        take_session(sessions, key);
        put_session(sessions, key, session);
        proof {
            assert(session_slots(*final(sessions)) =~= session_slots(*old(sessions)).insert(key, session));
        }
    } else {
        let mut current = match take_session(sessions, key) {
            Some(s) => s,
            None => {
                proof {
                    reveal_strlit("Session not found for key: ");
                    reveal_strlit("-");
                }
                let msg = String::from_str("Session not found for key: ").concat(symbol.into_text()).concat("-").concat(
                    candle.timerange.label,
                );
                assert(msg@ =~= "Session not found for key: "@ + session_key_text(symbol, candle.timerange));
                assert(session_slots(*final(sessions)) =~= session_slots(*old(sessions)));
                return Err(msg);
            },
        };
        if candle.high > current.high {
            current.high = candle.high;
        }
        if candle.low < current.low {
            current.low = candle.low;
        }
        current.close = candle.close;
        current.volume = current.volume.saturating_add(candle.volume);
        put_session(sessions, key, current);
        proof {
            assert(session_slots(*final(sessions)) =~= session_slots(*old(sessions)).insert(key, current));
        }
    }
    Ok(reports)
}

/// A session opened by a candle holds that candle, ends included, unless
/// the candle's time of day is from 07:00 to 07:30, both included: the
/// overnight session is then looked up from that day's evening.
pub proof fn lemma_named_opened_session_holds(c: Candle)
    requires
        named_session_can_open(c),
        !(25_200_000 <= ms_of_day(c.timestamp as int) <= 27_000_000),
    ensures
        within_session(named_opened_session(c, c.symbol), c),
{
    let ts = c.timestamp as int;
    let d = day_of(ts);
    assert(ts == d * 86_400_000 + ms_of_day(ts)) by {
        vstd::arithmetic::div_mod::lemma_fundamental_div_mod(ts, 86_400_000);
    }
    reveal_strlit("Asian Session");
    reveal_strlit("London Session");
    reveal_strlit("New York Session");
}

/// Every time of day falls in one of the reference sessions, ends included.
pub proof fn lemma_closed_sessions_cover_the_day(t: int)
    ensures
        in_closed_window(session_open(closed_session_at(t)) as int, session_close(closed_session_at(t)) as int, t),
{
}

/// Extending a session with a candle keeps the session's series, name,
/// window and open; its high becomes the higher of the two highs, its low
/// the lower of the two lows, it closes at the candle's close, and the
/// volumes add up (saturating).
pub proof fn lemma_named_extended_session_keeps_open(s: Session, c: Candle)
    ensures
        named_extended_session(s, c).open == s.open,
        named_extended_session(s, c).start_time == s.start_time,
        named_extended_session(s, c).end_time == s.end_time,
        named_extended_session(s, c).symbol == s.symbol,
        named_extended_session(s, c).label == s.label,
        named_extended_session(s, c).high == if c.high > s.high { c.high } else { s.high },
        named_extended_session(s, c).low == if c.low < s.low { c.low } else { s.low },
        named_extended_session(s, c).close == c.close,
        named_extended_session(s, c).volume == if s.volume + c.volume > u64::MAX { u64::MAX as int } else { s.volume + c.volume },
{
}

} // verus!

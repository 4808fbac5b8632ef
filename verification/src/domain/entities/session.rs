use vstd::prelude::*;

use crate::domain::entities::candle::Candle;
use crate::domain::entities::symbol::Symbol;
use crate::utils::time::{
    day_number, day_of, millis_of_day, ms_of_day, valid_timestamp, DAY_MS, MAX_TIMESTAMP_MS,
    MIN_TIMESTAMP_MS,
};

verus! {

/// One of the three trading sessions of a day.
#[derive(Clone, Copy, Debug, PartialEq, Eq, Structural)]
pub enum RefSessions {
    Asian,
    London,
    NewYork,
}

/// A reference session: its name and its opening and closing times, in
/// milliseconds since midnight UTC. A session whose start is after its end
/// runs overnight.
#[derive(Clone, Copy, Debug)]
pub struct RefSession {
    pub label: &'static str,
    pub start: u32,
    pub end: u32,
}

/// 07:30 UTC.
pub const LONDON_OPEN_MS: u32 = 27_000_000;
/// 12:00 UTC.
pub const NEW_YORK_OPEN_MS: u32 = 43_200_000;
/// 22:00 UTC.
pub const ASIAN_OPEN_MS: u32 = 79_200_000;

/// The name of a reference session.
pub open spec fn session_label(k: RefSessions) -> Seq<char> {
    match k {
        RefSessions::Asian => "Asian Session"@,
        RefSessions::London => "London Session"@,
        RefSessions::NewYork => "New York Session"@,
    }
}

/// When a reference session opens.
pub open spec fn session_open(k: RefSessions) -> u32 {
    match k {
        RefSessions::Asian => ASIAN_OPEN_MS,
        RefSessions::London => LONDON_OPEN_MS,
        RefSessions::NewYork => NEW_YORK_OPEN_MS,
    }
}

/// When a reference session closes.
pub open spec fn session_close(k: RefSessions) -> u32 {
    match k {
        RefSessions::Asian => LONDON_OPEN_MS,
        RefSessions::London => NEW_YORK_OPEN_MS,
        RefSessions::NewYork => ASIAN_OPEN_MS,
    }
}

/// The `i`-th entry of the table of reference sessions.
pub open spec fn session_kind(i: int) -> RefSessions {
    if i == 0 {
        RefSessions::Asian
    } else if i == 1 {
        RefSessions::London
    } else {
        RefSessions::NewYork
    }
}

/// `s` is the table entry of the session `k`.
pub open spec fn is_entry_of(s: RefSession, k: RefSessions) -> bool {
    s.label@ == session_label(k) && s.start == session_open(k) && s.end == session_close(k)
}

/// The time `t` of day falls in the half-open window from `start` to `end`,
/// wrapping past midnight when the start is after the end.
pub open spec fn in_window(start: int, end: int, t: int) -> bool {
    if start <= end {
        start <= t < end
    } else {
        t >= start || t < end
    }
}

/// The first reference session (in table order) whose window holds `t`.
pub open spec fn session_at(t: int) -> Option<RefSessions> {
    if in_window(ASIAN_OPEN_MS as int, LONDON_OPEN_MS as int, t) {
        Some(RefSessions::Asian)
    } else if in_window(LONDON_OPEN_MS as int, NEW_YORK_OPEN_MS as int, t) {
        Some(RefSessions::London)
    } else if in_window(NEW_YORK_OPEN_MS as int, ASIAN_OPEN_MS as int, t) {
        Some(RefSessions::NewYork)
    } else {
        None
    }
}

/// The reference sessions, in the order in which they are searched.
pub fn refsessions() -> (table: Vec<RefSession>)
    ensures
        table@.len() == 3,
        forall|i: int| 0 <= i < 3 ==> is_entry_of(#[trigger] table@[i], session_kind(i)),
{
    let mut table: Vec<RefSession> = Vec::new();
    table.push(RefSession { label: "Asian Session", start: ASIAN_OPEN_MS, end: LONDON_OPEN_MS });
    table.push(RefSession { label: "London Session", start: LONDON_OPEN_MS, end: NEW_YORK_OPEN_MS });
    table.push(RefSession { label: "New York Session", start: NEW_YORK_OPEN_MS, end: ASIAN_OPEN_MS });
    table
}

/// The day on which the window of session `k` looked up for the instant `ts`
/// starts, and the day on which it ends: both are the day of `ts`, for every
/// session. The Asian window thus runs from 22:00 back to 07:30 of that day
/// and holds no instant.
pub open spec fn session_days(k: RefSessions, ts: int) -> (int, int) {
    let d = day_of(ts);
    (d, d)
}

/// The instants at which the window of session `k` looked up for `ts` starts and ends.
pub open spec fn session_bounds(k: RefSessions, ts: int) -> (int, int) {
    let (sd, ed) = session_days(k, ts);
    (sd * DAY_MS + session_open(k), ed * DAY_MS + session_close(k))
}

/// The window of session `k` for `ts` lies on dates that a UTC date can hold.
pub open spec fn session_bounds_defined(k: RefSessions, ts: int) -> bool {
    valid_timestamp(ts)
}

impl RefSessions {
    #[verifier::rlimit(30)]
    pub fn get_start_end_datetime(ref_session: &RefSessions, timestamp: i64) -> (bounds: (i64, i64))
        requires
            session_bounds_defined(*ref_session, timestamp as int),
        ensures
            bounds.0 == session_bounds(*ref_session, timestamp as int).0,
            bounds.1 == session_bounds(*ref_session, timestamp as int).1,
            valid_timestamp(bounds.0 as int),
            valid_timestamp(bounds.1 as int),
    {
        let day = day_number(timestamp);
        proof {
            lemma_day_range(timestamp as int);
        }
        let (start_time, end_time) = Self::get_start_end_time(ref_session);
        (day * DAY_MS + start_time as i64, day * DAY_MS + end_time as i64)
    }

    pub fn get_start_end_time(ref_session: &RefSessions) -> (times: (u32, u32))
        ensures
            times.0 == session_open(*ref_session),
            times.1 == session_close(*ref_session),
    {
        match ref_session {
            RefSessions::Asian => (ASIAN_OPEN_MS, LONDON_OPEN_MS),
            RefSessions::London => (LONDON_OPEN_MS, NEW_YORK_OPEN_MS),
            RefSessions::NewYork => (NEW_YORK_OPEN_MS, ASIAN_OPEN_MS),
        }
    }

    pub fn from_session(session: &RefSession) -> (k: Option<Self>)
        ensures
            k == (if is_entry_of(*session, RefSessions::Asian) {
                Some(RefSessions::Asian)
            } else if is_entry_of(*session, RefSessions::London) {
                Some(RefSessions::London)
            } else if is_entry_of(*session, RefSessions::NewYork) {
                Some(RefSessions::NewYork)
            } else {
                None
            }),
    {
        if Self::is_table_entry(session, RefSessions::Asian) {
            Some(RefSessions::Asian)
        } else if Self::is_table_entry(session, RefSessions::London) {
            Some(RefSessions::London)
        } else if Self::is_table_entry(session, RefSessions::NewYork) {
            Some(RefSessions::NewYork)
        } else {
            None
        }
    }

    fn is_table_entry(session: &RefSession, k: RefSessions) -> (b: bool)
        ensures
            b == is_entry_of(*session, k),
    {
        let (start, end) = Self::get_start_end_time(&k);
        let label = match k {
            RefSessions::Asian => "Asian Session",
            RefSessions::London => "London Session",
            RefSessions::NewYork => "New York Session",
        };
        session.start == start && session.end == end
            && crate::domain::entities::symbol::str_equal(session.label, label)
    }

    pub fn from_timestamp(timestamp: u32) -> (k: Option<Self>)
        ensures
            k == session_at(timestamp as int),
    {
        let table = refsessions();
        let mut i: usize = 0;
        while i < 3
            invariant
                table@.len() == 3,
                forall|j: int| 0 <= j < 3 ==> is_entry_of(#[trigger] table@[j], session_kind(j)),
                0 <= i <= 3,
                forall|j: int|
                    0 <= j < i ==> !in_window(
                        session_open(session_kind(j)) as int,
                        session_close(session_kind(j)) as int,
                        timestamp as int,
                    ),
            decreases 3 - i,
        {
            let session = &table[i];
            assert(is_entry_of(table@[i as int], session_kind(i as int)));
            let inside = if session.start <= session.end {
                timestamp >= session.start && timestamp < session.end
            } else {
                timestamp >= session.start || timestamp < session.end
            };
            if inside {
                proof {
                    reveal_strlit("Asian Session");
                    reveal_strlit("London Session");
                    reveal_strlit("New York Session");
                }
                return Self::from_session(session);
            }
            i = i + 1;
        }
        proof {
            lemma_sessions_split_the_day(timestamp as int);
            assert(!in_window(session_open(session_kind(0)) as int, session_close(session_kind(0)) as int, timestamp as int));
            assert(!in_window(session_open(session_kind(1)) as int, session_close(session_kind(1)) as int, timestamp as int));
            assert(!in_window(session_open(session_kind(2)) as int, session_close(session_kind(2)) as int, timestamp as int));
        }
        None
    }
}

proof fn lemma_day_range(ts: int)
    requires
        valid_timestamp(ts),
    ensures
        -100_000_000 <= day_of(ts) <= 100_000_000,
{
}

/// Every instant of a day falls in exactly one reference session: the
/// windows of the three sessions split the day.
pub proof fn lemma_sessions_split_the_day(t: int)
    ensures
        session_at(t) is Some,
        in_window(session_open(session_at(t)->0) as int, session_close(session_at(t)->0) as int, t),
        forall|k: RefSessions|
            in_window(session_open(k) as int, session_close(k) as int, t) ==> k == session_at(t)->0,
{
}

/// The trading session in progress for a symbol.
#[derive(Clone, Copy, Debug)]
pub struct Session {
    pub symbol: Symbol,
    pub label: RefSessions,
    pub start_time: i64,
    pub end_time: i64,
    pub high: i64,
    pub low: i64,
    pub open: i64,
    pub close: i64,
    pub volume: u64,
}

/// A session can be opened for the instant `ts`.
pub open spec fn session_can_open(ts: int) -> bool {
    &&& valid_timestamp(ts)
    &&& session_bounds_defined(session_at(ms_of_day(ts))->0, ts)
}

/// Whether a session can be opened for the instant `ts`.
pub fn session_can_open_exec(ts: i64) -> (b: bool)
    ensures
        b == session_can_open(ts as int),
{
    MIN_TIMESTAMP_MS <= ts && ts <= MAX_TIMESTAMP_MS
}

/// The session opened by a candle.
pub open spec fn opened_session(c: Candle) -> Session {
    let k = session_at(ms_of_day(c.timestamp as int))->0;
    let (start, end) = session_bounds(k, c.timestamp as int);
    Session {
        symbol: c.symbol,
        label: k,
        start_time: start as i64,
        end_time: end as i64,
        high: c.high,
        low: c.low,
        open: c.open,
        close: c.close,
        volume: c.volume,
    }
}

/// The candle starts inside the session's window.
pub open spec fn session_holds(s: Session, c: Candle) -> bool {
    s.start_time <= c.timestamp < s.end_time
}

impl Session {
    pub fn contains(&self, candle: &Candle) -> (b: bool)
        ensures
            b == session_holds(*self, *candle),
    {
        candle.timestamp >= self.start_time && candle.timestamp < self.end_time
    }

    pub fn new(candle: &Candle) -> (s: Self)
        requires
            session_can_open(candle.timestamp as int),
        ensures
            s == opened_session(*candle),
            valid_timestamp(s.start_time as int),
            valid_timestamp(s.end_time as int),
    {
        let t = millis_of_day(candle.timestamp);
        proof {
            lemma_sessions_split_the_day(t as int);
        }
        let ref_sessions = RefSessions::from_timestamp(t as u32).unwrap();
        let (start_time, end_time) = RefSessions::get_start_end_datetime(&ref_sessions, candle.timestamp);
        Self {
            symbol: candle.symbol,
            label: ref_sessions,
            start_time,
            end_time,
            high: candle.high,
            low: candle.low,
            open: candle.open,
            close: candle.close,
            volume: candle.volume,
        }
    }
}

} // verus!

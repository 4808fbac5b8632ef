use vstd::prelude::*;

use dashmap::DashMap;

use crate::domain::entities::candle::Candle;
use crate::domain::entities::data::{Data, Dispatch};
use crate::domain::entities::session::{opened_session, session_can_open, session_holds, Session};
use crate::domain::series::{put_session, session_slots, symbol_key, symbol_key_of, take_session, SeriesKey};

verus! {

/// `a + b`, or `u64::MAX` when the sum does not fit.
pub open spec fn saturating_sum(a: u64, b: u64) -> u64 {
    if a + b > u64::MAX {
        u64::MAX
    } else {
        (a + b) as u64
    }
}

/// The larger of two prices.
pub open spec fn higher(a: i64, b: i64) -> i64 {
    if a >= b {
        a
    } else {
        b
    }
}

/// The smaller of two prices.
pub open spec fn lower(a: i64, b: i64) -> i64 {
    if a <= b {
        a
    } else {
        b
    }
}

/// A session extended by a candle that falls in it.
pub open spec fn extended_session(s: Session, c: Candle) -> Session {
    Session {
        high: higher(s.high, c.high),
        low: lower(s.low, c.low),
        close: c.close,
        volume: saturating_sum(s.volume, c.volume),
        ..s
    }
}

/// What a candle does to the session of its symbol: the candle extends the
/// session it falls in; otherwise the finished session is stored and the
/// candle opens a new one. The session then in progress is sent.
pub open spec fn session_step(cur: Option<Session>, c: Candle) -> (Session, Seq<Dispatch>) {
    match cur {
        Some(s) => if session_holds(s, c) {
            let e = extended_session(s, c);
            (e, seq![Dispatch::Send(Data::Session(e))])
        } else {
            let n = opened_session(c);
            (n, seq![Dispatch::Insert(Data::Session(s)), Dispatch::Send(Data::Session(n))])
        },
        None => {
            let n = opened_session(c);
            (n, seq![Dispatch::Send(Data::Session(n))])
        },
    }
}

/// A candle can be applied to the session `cur`: when it does not fall in
/// it, a session can be opened at its instant.
pub open spec fn session_step_defined(cur: Option<Session>, c: Candle) -> bool {
    !(cur is Some && session_holds(cur->0, c)) ==> session_can_open(c.timestamp as int)
}

/// The higher of two prices.
pub fn max_price(a: i64, b: i64) -> (m: i64)
    ensures
        m == higher(a, b),
{
    if a >= b {
        a
    } else {
        b
    }
}

/// The lower of two prices.
pub fn min_price(a: i64, b: i64) -> (m: i64)
    ensures
        m == lower(a, b),
{
    if a <= b {
        a
    } else {
        b
    }
}

/// Applies a candle to the session in progress for its symbol.
pub fn session_step_exec(cur: Option<Session>, candle: &Candle) -> (res: (Session, Vec<Dispatch>))
    requires
        session_step_defined(cur, *candle),
    ensures
        (res.0, res.1@) == session_step(cur, *candle),
{
    let mut out: Vec<Dispatch> = Vec::new();
    if let Some(session) = cur {
        if session.contains(candle) {
            let mut s = session;
            s.high = max_price(s.high, candle.high);
            s.low = min_price(s.low, candle.low);
            s.close = candle.close;
            s.volume = s.volume.saturating_add(candle.volume);
            out.push(Dispatch::Send(Data::Session(s)));
            return (s, out);
        }
        out.push(Dispatch::Insert(Data::Session(session)));
    }
    let session = Session::new(candle);
    out.push(Dispatch::Send(Data::Session(session)));
    (session, out)
}

/// The session of a symbol in a store, if there is one.
pub open spec fn session_in(m: Map<SeriesKey, Session>, k: SeriesKey) -> Option<Session> {
    if m.contains_key(k) {
        Some(m[k])
    } else {
        None
    }
}

/// Applies a candle to the session in progress for its symbol; returns what
/// is stored and sent.
pub fn process_session(sessions: &mut DashMap<SeriesKey, Session>, candle: &Candle) -> (out: Vec<Dispatch>)
    requires
        session_step_defined(session_in(session_slots(*old(sessions)), symbol_key_of(candle.symbol)), *candle),
    ensures
        ({
            let k = symbol_key_of(candle.symbol);
            let (s, o) = session_step(session_in(session_slots(*old(sessions)), k), *candle);
            &&& session_slots(*final(sessions)) == session_slots(*old(sessions)).insert(k, s)
            &&& out@ == o
        }),
{
    let key = symbol_key(candle.symbol);
    let cur = take_session(sessions, key);
    let (s, out) = session_step_exec(cur, candle);
    put_session(sessions, key, s);
    proof {
        assert(session_slots(*final(sessions)) =~= session_slots(*old(sessions)).insert(key, s));
    }
    out
}


/// A session opened by a candle holds that candle, unless the candle falls
/// in the overnight session (from 22:00 to 07:30), whose window, looked up on
/// the candle's own day, holds no instant.
pub proof fn lemma_opened_session_holds(c: Candle)
    requires
        crate::domain::entities::session::session_can_open(c.timestamp as int),
        crate::utils::time::ms_of_day(c.timestamp as int) >= crate::domain::entities::session::LONDON_OPEN_MS,
        crate::utils::time::ms_of_day(c.timestamp as int) < crate::domain::entities::session::ASIAN_OPEN_MS,
    ensures
        session_holds(opened_session(c), c),
{
    let ts = c.timestamp as int;
    let d = crate::utils::time::day_of(ts);
    assert(ts == d * 86_400_000 + crate::utils::time::ms_of_day(ts)) by {
        vstd::arithmetic::div_mod::lemma_fundamental_div_mod(ts, 86_400_000);
    }
}

/// A candle that falls in the session in progress keeps the session's
/// window and opening price, raises its high to at least the candle's high,
/// lowers its low to at most the candle's low, and closes it at the candle's
/// close.
pub proof fn lemma_extended_session_covers(s: Session, c: Candle)
    ensures
        extended_session(s, c).start_time == s.start_time,
        extended_session(s, c).end_time == s.end_time,
        extended_session(s, c).open == s.open,
        extended_session(s, c).symbol == s.symbol,
        extended_session(s, c).label == s.label,
        extended_session(s, c).high == if c.high > s.high { c.high } else { s.high },
        extended_session(s, c).low == if c.low < s.low { c.low } else { s.low },
        extended_session(s, c).close == c.close,
        extended_session(s, c).volume == if s.volume + c.volume > u64::MAX { u64::MAX as int } else { s.volume + c.volume },
{
}

} // verus!

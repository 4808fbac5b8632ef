use vstd::prelude::*;

use crate::domain::entities::candle::Candle;
use crate::domain::entities::data::{all_stored_and_sent, store_and_send, stored_and_sent, Data, Dispatch};
use crate::domain::entities::direction::Direction;
use crate::domain::entities::structures::{
    OneDStructure, OneDStructureLabel, TwoDStructure, TwoDStructureLabel,
};
use crate::domain::entities::trend::{Subtrend, Trend, TrendBook, TrendState};
use crate::domain::series::{book_slots, book_view, key_of, put_book, series_key, take_book, SeriesKey};

use dashmap::DashMap;

verus! {

/// A single-price structure marked for the candle's series.
pub open spec fn marker(c: Candle, label: OneDStructureLabel, ts: i64, price: i64, d: Direction) -> Data {
    Data::OneDStructure(
        OneDStructure {
            symbol: c.symbol,
            label,
            timerange: c.timerange,
            timestamp: ts,
            price,
            direction: d,
        },
    )
}

/// The trend that a candle opens.
pub open spec fn opened_trend(c: Candle) -> Trend {
    Trend {
        symbol: c.symbol,
        timerange: c.timerange,
        start_time: c.timestamp,
        end_time: c.timestamp,
        high: c.high,
        low: c.low,
        direction: c.direction,
        high_datetime: Some(c.timestamp),
        low_datetime: Some(c.timestamp),
        relative_high: Some(c.high),
        relative_low: Some(c.low),
    }
}

/// The pull-back that a candle against the trend opens.
pub open spec fn opened_subtrend(c: Candle) -> Subtrend {
    Subtrend {
        start_time: c.timestamp,
        direction: c.direction,
        high: c.high,
        low: c.low,
        last_relative_low: c.low,
        last_relative_high: c.high,
        last_candle: c,
        last_relative_low_datetime: c.timestamp,
        last_relative_high_datetime: c.timestamp,
    }
}

/// The break of structure that invalidates the pull-back `s`, followed by the
/// relative high and the relative low of the pull-back; all in direction `d`,
/// the break at `price`.
pub open spec fn break_markers(c: Candle, s: Subtrend, price: i64, d: Direction) -> Seq<Dispatch> {
    stored_and_sent(marker(c, OneDStructureLabel::BOS, c.timestamp, price, d))
        + stored_and_sent(marker(c, OneDStructureLabel::RH, s.last_relative_high_datetime, s.high, d))
        + stored_and_sent(marker(c, OneDStructureLabel::RL, s.last_relative_low_datetime, s.low, d))
}

/// The order block on the last candle of the pull-back `s`, then the change of
/// character at `price`, both in direction `d`.
pub open spec fn reversal_markers(c: Candle, s: Subtrend, price: i64, d: Direction) -> Seq<Dispatch> {
    stored_and_sent(
        Data::TwoDStructure(
            TwoDStructure {
                symbol: c.symbol,
                label: TwoDStructureLabel::OB,
                timerange: c.timerange,
                timestamp: c.timestamp,
                high: s.last_candle.high,
                low: s.last_candle.low,
                direction: d,
            },
        ),
    ) + stored_and_sent(marker(c, OneDStructureLabel::CHOCH, c.timestamp, price, d))
}

/// A candle in the direction of the trend `t`: it extends the trend, and it
/// either breaks or stretches the pull-back, or, with no pull-back, it moves
/// the trend's extremes.
pub open spec fn with_trend(t: Trend, sub: Option<Subtrend>, c: Candle)
    -> (Trend, Option<Subtrend>, Seq<Dispatch>)
{
    let t1 = Trend { end_time: c.timestamp, ..t };
    match sub {
        Some(s) => match s.direction {
            Direction::Bullish => if c.close < s.low {
                (Trend { high: s.high, ..t1 }, None, break_markers(c, s, s.low, Direction::Bearish))
            } else if c.high > s.high {
                (
                    t1,
                    Some(
                        Subtrend {
                            high: c.high,
                            last_relative_high_datetime: c.timestamp,
                            last_relative_high: c.high,
                            ..s
                        },
                    ),
                    seq![],
                )
            } else {
                (t1, Some(s), seq![])
            },
            Direction::Bearish => if c.close > s.high {
                (Trend { low: s.low, ..t1 }, None, break_markers(c, s, s.high, Direction::Bullish))
            } else if c.low < s.low {
                (
                    t1,
                    Some(
                        Subtrend {
                            low: c.low,
                            last_relative_low_datetime: c.timestamp,
                            last_relative_low: c.low,
                            ..s
                        },
                    ),
                    seq![],
                )
            } else {
                (t1, Some(s), seq![])
            },
            Direction::Doji => (t1, Some(s), seq![]),
        },
        None => {
            let t2 = if t1.low > c.low {
                Trend { low: c.low, low_datetime: Some(c.timestamp), ..t1 }
            } else {
                t1
            };
            let t3 = if t2.high < c.high {
                Trend { high: c.high, high_datetime: Some(c.timestamp), ..t2 }
            } else {
                t2
            };
            (t3, None, seq![])
        },
    }
}

/// A candle against the trend `t`: with no pull-back it opens one; with a
/// pull-back, a close beyond the trend's extreme is a change of character,
/// reported with the start of the pull-back.
pub open spec fn against_trend(t: Trend, sub: Option<Subtrend>, c: Candle)
    -> (Trend, Option<Subtrend>, Seq<Dispatch>, Option<i64>)
{
    match sub {
        Some(s) => match s.direction {
            Direction::Bullish => {
                let t1 = Trend { end_time: c.timestamp, ..t };
                if c.close > t.high {
                    (t1, Some(s), reversal_markers(c, s, s.last_relative_high, Direction::Bullish), Some(s.start_time))
                } else {
                    (t1, Some(s), seq![], None)
                }
            },
            Direction::Bearish => {
                let t1 = Trend { end_time: c.timestamp, ..t };
                if c.close < t.low {
                    (t1, Some(s), reversal_markers(c, s, s.last_relative_low, Direction::Bearish), Some(s.start_time))
                } else {
                    (t1, Some(s), seq![], None)
                }
            },
            Direction::Doji => (t, Some(s), seq![], None),
        },
        None => (t, Some(opened_subtrend(c)), seq![], None),
    }
}

/// What one candle does to the trend state of its series: the new state,
/// what is stored and sent, and, on a change of character, the start of the
/// pull-back that reversed the trend.
pub open spec fn trend_step(st: TrendState, c: Candle) -> (TrendState, Seq<Dispatch>, Option<i64>) {
    match st.trend {
        None => if c.direction == Direction::Doji {
            (st, seq![], None)
        } else {
            let t = opened_trend(c);
            (TrendState { trend: Some(t), ..st }, stored_and_sent(Data::Trend(t)), None)
        },
        Some(t) => if c.direction == t.direction {
            let (t2, sub2, out) = with_trend(t, st.subtrend, c);
            (TrendState { trend: Some(t2), subtrend: sub2 }, out + stored_and_sent(Data::Trend(t2)), None)
        } else {
            let (t2, sub2, out, at) = against_trend(t, st.subtrend, c);
            (TrendState { trend: Some(t2), subtrend: sub2 }, out + stored_and_sent(Data::Trend(t2)), at)
        },
    }
}

fn push_marker(out: &mut Vec<Dispatch>, c: &Candle, label: OneDStructureLabel, ts: i64, price: i64, d: Direction)
    ensures
        final(out)@ == old(out)@ + stored_and_sent(marker(*c, label, ts, price, d)),
{
    let m = Data::OneDStructure(
        OneDStructure {
            symbol: c.symbol,
            label,
            timerange: c.timerange,
            timestamp: ts,
            price,
            direction: d,
        },
    );
    store_and_send(out, m);
}

fn push_break(out: &mut Vec<Dispatch>, c: &Candle, s: &Subtrend, price: i64, d: Direction)
    ensures
        final(out)@ == old(out)@ + break_markers(*c, *s, price, d),
{
    push_marker(out, c, OneDStructureLabel::BOS, c.timestamp, price, d);
    push_marker(out, c, OneDStructureLabel::RH, s.last_relative_high_datetime, s.high, d);
    push_marker(out, c, OneDStructureLabel::RL, s.last_relative_low_datetime, s.low, d);
    assert(final(out)@ =~= old(out)@ + break_markers(*c, *s, price, d));
}

fn push_reversal(out: &mut Vec<Dispatch>, c: &Candle, s: &Subtrend, price: i64, d: Direction)
    ensures
        final(out)@ == old(out)@ + reversal_markers(*c, *s, price, d),
{
    let ob = Data::TwoDStructure(
        TwoDStructure {
            symbol: c.symbol,
            label: TwoDStructureLabel::OB,
            timerange: c.timerange,
            timestamp: c.timestamp,
            high: s.last_candle.high,
            low: s.last_candle.low,
            direction: d,
        },
    );
    store_and_send(out, ob);
    push_marker(out, c, OneDStructureLabel::CHOCH, c.timestamp, price, d);
    assert(final(out)@ =~= old(out)@ + reversal_markers(*c, *s, price, d));
}

/// Applies one candle to the trend state of its series; returns what is
/// stored and sent, and the start of the reversed pull-back on a change of
/// character.
pub fn trend_step_exec(st: &mut TrendState, candle: &Candle) -> (res: (Vec<Dispatch>, Option<i64>))
    ensures
        (*final(st), res.0@, res.1) == trend_step(*old(st), *candle),
{
    let c = *candle;
    let mut out: Vec<Dispatch> = Vec::new();
    let mut datetime: Option<i64> = None;
    match st.trend {
        Some(t) => {
            let mut trend = t;
            if c.direction == trend.direction {
                trend.end_time = c.timestamp;
                match st.subtrend {
                    Some(s) => {
                        let mut sub = s;
                        match sub.direction {
                            Direction::Bullish => {
                                if c.close < sub.low {
                                    trend.high = sub.high;
                                    push_break(&mut out, &c, &sub, sub.low, Direction::Bearish);
                                    st.subtrend = None;
                                } else if c.high > sub.high {
                                    sub.high = c.high;
                                    sub.last_relative_high_datetime = c.timestamp;
                                    sub.last_relative_high = c.high;
                                    st.subtrend = Some(sub);
                                }
                            },
                            Direction::Bearish => {
                                if c.close > sub.high {
                                    trend.low = sub.low;
                                    push_break(&mut out, &c, &sub, sub.high, Direction::Bullish);
                                    st.subtrend = None;
                                } else if c.low < sub.low {
                                    sub.low = c.low;
                                    sub.last_relative_low_datetime = c.timestamp;
                                    sub.last_relative_low = c.low;
                                    st.subtrend = Some(sub);
                                }
                            },
                            Direction::Doji => {},
                        }
                    },
                    None => {
                        if trend.low > c.low {
                            trend.low = c.low;
                            trend.low_datetime = Some(c.timestamp);
                        }
                        if trend.high < c.high {
                            trend.high = c.high;
                            trend.high_datetime = Some(c.timestamp);
                        }
                    },
                }
            } else {
                match st.subtrend {
                    Some(s) => {
                        match s.direction {
                            Direction::Bullish => {
                                trend.end_time = c.timestamp;
                                if c.close > trend.high {
                                    datetime = Some(s.start_time);
                                    push_reversal(&mut out, &c, &s, s.last_relative_high, Direction::Bullish);
                                }
                            },
                            Direction::Bearish => {
                                trend.end_time = c.timestamp;
                                if c.close < trend.low {
                                    datetime = Some(s.start_time);
                                    push_reversal(&mut out, &c, &s, s.last_relative_low, Direction::Bearish);
                                }
                            },
                            Direction::Doji => {},
                        }
                    },
                    None => {
                        st.subtrend = Some(
                            Subtrend {
                                start_time: c.timestamp,
                                direction: c.direction,
                                high: c.high,
                                low: c.low,
                                last_relative_low: c.low,
                                last_relative_high: c.high,
                                last_candle: c,
                                last_relative_low_datetime: c.timestamp,
                                last_relative_high_datetime: c.timestamp,
                            },
                        );
                    },
                }
            }
            st.trend = Some(trend);
        },
        None => {
            if c.direction == Direction::Doji {
                return (out, None);
            }
            st.trend = Some(
                Trend {
                    symbol: c.symbol,
                    timerange: c.timerange,
                    start_time: c.timestamp,
                    end_time: c.timestamp,
                    high: c.high,
                    low: c.low,
                    direction: c.direction,
                    high_datetime: Some(c.timestamp),
                    low_datetime: Some(c.timestamp),
                    relative_high: Some(c.high),
                    relative_low: Some(c.low),
                },
            );
        },
    }
    let current = st.trend.unwrap();
    store_and_send(&mut out, Data::Trend(current));
    (out, datetime)
}

/// The candles of `q` strictly after the instant `dt`, in their order.
pub open spec fn after(q: Seq<Candle>, dt: i64) -> Seq<Candle> {
    q.filter(|c: Candle| c.timestamp > dt)
}

/// Keeps the candles of the queue that are strictly after `datetime`.
pub fn retain_after(queue: &mut Vec<Candle>, datetime: i64)
    ensures
        final(queue)@ == after(old(queue)@, datetime),
{
    let mut kept: Vec<Candle> = Vec::new();
    let n = queue.len();
    let mut i: usize = 0;
    while i < n
        invariant
            n == queue@.len(),
            i <= n,
            kept@ == after(queue@.take(i as int), datetime),
        decreases n - i,
    {
        let c = queue[i];
        proof {
            assert(queue@.take(i + 1).drop_last() =~= queue@.take(i as int));
            reveal_with_fuel(Seq::filter, 1);
        }
        if c.timestamp > datetime {
            kept.push(c);
        }
        i = i + 1;
    }
    assert(queue@.take(n as int) =~= queue@);
    *queue = kept;
}

/// Replays the queue `q` candle by candle until one of them reports a change
/// of character: the state after the replay, what was stored and sent, and
/// the start of the reversed pull-back, if one was found.
pub open spec fn trend_scan(st: TrendState, q: Seq<Candle>) -> (TrendState, Seq<Dispatch>, Option<i64>)
    decreases q.len(),
{
    if q.len() == 0 {
        (st, seq![], None)
    } else {
        let (s1, o1, d1) = trend_step(st, q[0]);
        if d1 is Some {
            (s1, o1, d1)
        } else {
            let (s2, o2, d2) = trend_scan(s1, q.drop_first());
            (s2, o1 + o2, d2)
        }
    }
}

fn trend_scan_exec(st: &mut TrendState, q: &Vec<Candle>) -> (res: (Vec<Dispatch>, Option<i64>))
    ensures
        (*final(st), res.0@, res.1) == trend_scan(*old(st), q@),
{
    let mut out: Vec<Dispatch> = Vec::new();
    let n = q.len();
    let mut i: usize = 0;
    assert(q@.skip(0) =~= q@);
    assert(forall|o: Seq<Dispatch>| #[trigger] (out@ + o) =~= o);
    while i < n
        invariant
            n == q@.len(),
            i <= n,
            ({
                let (s, o, d) = trend_scan(*st, q@.skip(i as int));
                trend_scan(*old(st), q@) == (s, out@ + o, d)
            }),
        decreases n - i,
    {
        assert(q@.skip(i as int)[0] == q@[i as int]);
        assert(q@.skip(i as int).drop_first() =~= q@.skip(i + 1));
        let c = q[i];
        let (mut o, d) = trend_step_exec(st, &c);
        out.append(&mut o);
        if d.is_some() {
            return (out, d);
        }
        i = i + 1;
    }
    assert(q@.skip(n as int) =~= Seq::<Candle>::empty());
    (out, None)
}

/// The candle `c` breaks the structure of the pull-back in `st`: it goes the
/// trend's way and closes beyond the pull-back's far extreme.
pub open spec fn step_breaks(st: TrendState, c: Candle) -> bool {
    match (st.trend, st.subtrend) {
        (Some(t), Some(s)) => c.direction == t.direction && ((s.direction == Direction::Bullish && c.close
            < s.low) || (s.direction == Direction::Bearish && c.close > s.high)),
        _ => false,
    }
}

/// Replaying `q` from `st` meets neither a break of structure nor a change of
/// character.
pub open spec fn scan_is_quiet(st: TrendState, q: Seq<Candle>) -> bool
    decreases q.len(),
{
    if q.len() == 0 {
        true
    } else {
        &&& !step_breaks(st, q[0])
        &&& trend_step(st, q[0]).2 is None
        &&& scan_is_quiet(trend_step(st, q[0]).0, q.drop_first())
    }
}

/// The candles on which trend processing is defined: the candle does not
/// break the structure of the pull-back, and after a change of character
/// the replay of the cut queue meets neither a break of structure nor a
/// change of character.
pub open spec fn trend_returns(st: TrendState, q: Seq<Candle>, c: Candle) -> bool {
    &&& !step_breaks(st, c)
    &&& match trend_step(st, c).2 {
        Some(d) => scan_is_quiet(trend_step(st, c).0, after(q, d)),
        None => true,
    }
}

/// Processing candle `c`: the candle is applied; on a change of character the
/// queue is cut at the reported instant and replayed.
pub open spec fn trend_round(st: TrendState, q: Seq<Candle>, c: Candle) -> (TrendState, Seq<Candle>, Seq<Dispatch>) {
    let (s1, o1, d1) = trend_step(st, c);
    match d1 {
        None => (s1, q, o1),
        Some(d) => {
            let q1 = after(q, d);
            let (s2, o2, d2) = trend_scan(s1, q1);
            (s2, q1, o1 + o2)
        },
    }
}

fn trend_round_exec(book: &mut TrendBook, candle: &Candle) -> (out: Vec<Dispatch>)
    ensures
        trend_round(old(book).state, old(book).queue@, *candle) == (final(book).state, final(book).queue@, out@),
{
    let (mut out, d1) = trend_step_exec(&mut book.state, candle);
    match d1 {
        None => out,
        Some(d) => {
            retain_after(&mut book.queue, d);
            let (mut o2, d2) = trend_scan_exec(&mut book.state, &book.queue);
            out.append(&mut o2);
            out
        },
    }
}

/// Queues the candle, applies it to the trend state and, after a change of
/// character, cuts the queue and replays it.
pub fn process_trend_book(book: &mut TrendBook, candle: &Candle) -> (out: Vec<Dispatch>)
    requires
        trend_returns(old(book).state, old(book).queue@.push(*candle), *candle),
    ensures
        trend_round(old(book).state, old(book).queue@.push(*candle), *candle) == (
            final(book).state,
            final(book).queue@,
            out@,
        ),
{
    book.queue.push(*candle);
    trend_round_exec(book, candle)
}

/// Whether the candle `c` breaks the structure of the pull-back in `st`.
pub fn step_breaks_exec(st: &TrendState, c: &Candle) -> (b: bool)
    ensures
        b == step_breaks(*st, *c),
{
    match (st.trend, st.subtrend) {
        (Some(t), Some(s)) => c.direction == t.direction && ((s.direction == Direction::Bullish && c.close < s.low) || (
        s.direction == Direction::Bearish && c.close > s.high)),
        _ => false,
    }
}

pub(crate) fn copy_queue(q: &Vec<Candle>) -> (r: Vec<Candle>)
    ensures
        r@ == q@,
{
    let mut r: Vec<Candle> = Vec::new();
    let n = q.len();
    let mut i: usize = 0;
    while i < n
        invariant
            n == q@.len(),
            i <= n,
            r@ == q@.take(i as int),
        decreases n - i,
    {
        r.push(q[i]);
        assert(q@.take(i + 1) =~= q@.take(i as int).push(q@[i as int]));
        i = i + 1;
    }
    assert(q@.take(n as int) =~= q@);
    r
}

fn scan_is_quiet_exec(st: TrendState, q: &Vec<Candle>) -> (b: bool)
    ensures
        b == scan_is_quiet(st, q@),
{
    let mut s = st;
    let n = q.len();
    let mut i: usize = 0;
    assert(q@.skip(0) =~= q@);
    while i < n
        invariant
            n == q@.len(),
            i <= n,
            scan_is_quiet(st, q@) == scan_is_quiet(s, q@.skip(i as int)),
        decreases n - i,
    {
        assert(q@.skip(i as int)[0] == q@[i as int]);
        assert(q@.skip(i as int).drop_first() =~= q@.skip(i + 1));
        let c = q[i];
        if step_breaks_exec(&s, &c) {
            return false;
        }
        let (_o, d) = trend_step_exec(&mut s, &c);
        if d.is_some() {
            return false;
        }
        i = i + 1;
    }
    assert(q@.skip(n as int) =~= Seq::<Candle>::empty());
    true
}

/// Whether trend processing is defined on `candle` from the state `st` with
/// queue `q` (already holding the candle).
pub fn trend_returns_exec(st: &TrendState, q: &Vec<Candle>, candle: &Candle) -> (b: bool)
    ensures
        b == trend_returns(*st, q@, *candle),
{
    if step_breaks_exec(st, candle) {
        return false;
    }
    let mut s = *st;
    let (_o, d) = trend_step_exec(&mut s, candle);
    match d {
        None => true,
        Some(dt) => {
            let mut q1 = copy_queue(q);
            retain_after(&mut q1, dt);
            scan_is_quiet_exec(s, &q1)
        },
    }
}

/// The book of a series in a store: the stored one, or an empty one.
pub open spec fn book_in(m: Map<SeriesKey, (TrendState, Seq<Candle>)>, k: SeriesKey) -> (TrendState, Seq<Candle>) {
    if m.contains_key(k) {
        m[k]
    } else {
        (TrendState { trend: None, subtrend: None }, seq![])
    }
}

fn take_book_or_empty(books: &mut DashMap<SeriesKey, TrendBook>, key: SeriesKey) -> (b: TrendBook)
    ensures
        book_view(b) == book_in(book_slots(*old(books)), key),
        book_slots(*final(books)) == book_slots(*old(books)).remove(key),
{
    match take_book(books, key) {
        Some(b) => b,
        None => TrendBook { state: TrendState { trend: None, subtrend: None }, queue: Vec::new() },
    }
}

/// Applies a candle to the trend state of its series; returns what is stored
/// and sent, and, on a change of character, the start of the reversed
/// pull-back. Defined on candles that do not break the structure of the
/// pull-back.
pub fn get_trend(books: &mut DashMap<SeriesKey, TrendBook>, candle: &Candle) -> (res: (Vec<Dispatch>, Option<i64>))
    requires
        !step_breaks(book_in(book_slots(*old(books)), key_of(candle.symbol, candle.timerange)).0, *candle),
    ensures
        ({
            let k = key_of(candle.symbol, candle.timerange);
            let (st, q) = book_in(book_slots(*old(books)), k);
            let (st2, o, d) = trend_step(st, *candle);
            &&& book_slots(*final(books)) == book_slots(*old(books)).insert(k, (st2, q))
            &&& res.0@ == o
            &&& res.1 == d
        }),
{
    let key = series_key(candle.symbol, &candle.timerange);
    let mut book = take_book_or_empty(books, key);
    let res = trend_step_exec(&mut book.state, candle);
    put_book(books, key, book);
    proof {
        assert(book_slots(*final(books)) =~= book_slots(*old(books)).insert(key, book_view(book)));
    }
    res
}

/// Drops from the queue of the series `key` the candles at or before `datetime`.
pub fn process_queue(books: &mut DashMap<SeriesKey, TrendBook>, key: SeriesKey, datetime: i64)
    ensures
        book_slots(*final(books)) == if book_slots(*old(books)).contains_key(key) {
            book_slots(*old(books)).insert(
                key,
                (book_slots(*old(books))[key].0, after(book_slots(*old(books))[key].1, datetime)),
            )
        } else {
            book_slots(*old(books))
        },
{
    match take_book(books, key) {
        Some(mut book) => {
            retain_after(&mut book.queue, datetime);
            put_book(books, key, book);
            assert(book_slots(*final(books)) =~= book_slots(*old(books)).insert(
                key,
                (book_slots(*old(books))[key].0, after(book_slots(*old(books))[key].1, datetime)),
            ));
        },
        None => {
            assert(book_slots(*final(books)) =~= book_slots(*old(books)));
        },
    }
}

/// Queues a candle of a series and applies it to the series' trend state;
/// after a change of character, cuts the queue at the start of the reversed
/// pull-back and replays it once. Returns what is stored and sent, in order.
/// Defined on the candles that `trend_returns` admits.
pub fn process_trend(books: &mut DashMap<SeriesKey, TrendBook>, candle: &Candle) -> (out: Vec<Dispatch>)
    requires
        ({
            let (st, q) = book_in(book_slots(*old(books)), key_of(candle.symbol, candle.timerange));
            trend_returns(st, q.push(*candle), *candle)
        }),
    ensures
        ({
            let k = key_of(candle.symbol, candle.timerange);
            let (st, q) = book_in(book_slots(*old(books)), k);
            let (st2, q2, o) = trend_round(st, q.push(*candle), *candle);
            &&& book_slots(*final(books)) == book_slots(*old(books)).insert(k, (st2, q2))
            &&& out@ == o
        }),
{
    let key = series_key(candle.symbol, &candle.timerange);
    let mut book = take_book_or_empty(books, key);
    let out = process_trend_book(&mut book, candle);
    put_book(books, key, book);
    proof {
        assert(book_slots(*final(books)) =~= book_slots(*old(books)).insert(key, book_view(book)));
    }
    out
}

/// Whether `process_trend` is defined on `candle` with the trend books `books`;
/// the books are left as they are.
pub fn trend_would_return(books: &mut DashMap<SeriesKey, TrendBook>, candle: &Candle) -> (b: bool)
    ensures
        book_slots(*final(books)) == book_slots(*old(books)),
        b == ({
            let (st, q) = book_in(book_slots(*old(books)), key_of(candle.symbol, candle.timerange));
            trend_returns(st, q.push(*candle), *candle)
        }),
{
    let key = series_key(candle.symbol, &candle.timerange);
    match take_book(books, key) {
        Some(book) => {
            let mut q = copy_queue(&book.queue);
            q.push(*candle);
            let b = trend_returns_exec(&book.state, &q, candle);
            put_book(books, key, book);
            proof {
                assert(book_slots(*final(books)) =~= book_slots(*old(books)));
            }
            b
        },
        None => {
            let st = TrendState { trend: None, subtrend: None };
            let mut q: Vec<Candle> = Vec::new();
            q.push(*candle);
            proof {
                assert(q@ =~= Seq::<Candle>::empty().push(*candle));
            }
            trend_returns_exec(&st, &q, candle)
        },
    }
}


/// The shape of a trend state: a pull-back exists only against an existing
/// trend, and a trend is never sideways.
pub open spec fn trend_state_shape(st: TrendState) -> bool {
    &&& st.subtrend is Some ==> st.trend is Some && st.subtrend->0.direction != st.trend->0.direction
    &&& st.trend is Some ==> st.trend->0.direction != Direction::Doji
}

/// Applying a candle keeps the shape of the trend state.
pub proof fn lemma_trend_step_keeps_shape(st: TrendState, c: Candle)
    requires
        trend_state_shape(st),
    ensures
        trend_state_shape(trend_step(st, c).0),
{
}

/// Replaying a queue keeps the shape of the trend state.
pub proof fn lemma_trend_scan_keeps_shape(st: TrendState, q: Seq<Candle>)
    requires
        trend_state_shape(st),
    ensures
        trend_state_shape(trend_scan(st, q).0),
    decreases q.len(),
{
    if q.len() > 0 {
        lemma_trend_step_keeps_shape(st, q[0]);
        lemma_trend_scan_keeps_shape(trend_step(st, q[0]).0, q.drop_first());
    }
}

/// Processing a candle, replay included, keeps the shape of the trend state.
pub proof fn lemma_trend_round_keeps_shape(st: TrendState, q: Seq<Candle>, c: Candle)
    requires
        trend_state_shape(st),
    ensures
        trend_state_shape(trend_round(st, q, c).0),
{
    lemma_trend_step_keeps_shape(st, c);
    let (s1, o1, d1) = trend_step(st, c);
    if d1 is Some {
        lemma_trend_scan_keeps_shape(s1, after(q, d1->0));
    }
}

/// The data that a candle stores and sends before the trend: the break of
/// structure with the pull-back's relative high and low, the order block
/// with the change of character, or nothing.
spec fn step_markers(st: TrendState, c: Candle) -> Seq<Data> {
    match (st.trend, st.subtrend) {
        (Some(t), Some(s)) => if c.direction == t.direction {
            match s.direction {
                Direction::Bullish => if c.close < s.low {
                    break_data(c, s, s.low, Direction::Bearish)
                } else {
                    seq![]
                },
                Direction::Bearish => if c.close > s.high {
                    break_data(c, s, s.high, Direction::Bullish)
                } else {
                    seq![]
                },
                Direction::Doji => seq![],
            }
        } else {
            match s.direction {
                Direction::Bullish => if c.close > t.high {
                    reversal_data(c, s, s.last_relative_high, Direction::Bullish)
                } else {
                    seq![]
                },
                Direction::Bearish => if c.close < t.low {
                    reversal_data(c, s, s.last_relative_low, Direction::Bearish)
                } else {
                    seq![]
                },
                Direction::Doji => seq![],
            }
        },
        _ => seq![],
    }
}

spec fn break_data(c: Candle, s: Subtrend, price: i64, d: Direction) -> Seq<Data> {
    seq![
        marker(c, OneDStructureLabel::BOS, c.timestamp, price, d),
        marker(c, OneDStructureLabel::RH, s.last_relative_high_datetime, s.high, d),
        marker(c, OneDStructureLabel::RL, s.last_relative_low_datetime, s.low, d),
    ]
}

spec fn reversal_data(c: Candle, s: Subtrend, price: i64, d: Direction) -> Seq<Data> {
    seq![
        Data::TwoDStructure(
            TwoDStructure {
                symbol: c.symbol,
                label: TwoDStructureLabel::OB,
                timerange: c.timerange,
                timestamp: c.timestamp,
                high: s.last_candle.high,
                low: s.last_candle.low,
                direction: d,
            },
        ),
        marker(c, OneDStructureLabel::CHOCH, c.timestamp, price, d),
    ]
}

/// Whenever a candle does anything to the trend state, what it stores and
/// sends comes in pairs, each datum stored and then the same datum sent, and
/// the last pair is the trend as it then stands.
pub proof fn lemma_trend_step_pairs(st: TrendState, c: Candle)
    requires
        !(st.trend is None && c.direction == Direction::Doji),
    ensures
        exists|ds: Seq<Data>|
            ds.len() >= 1 && #[trigger] all_stored_and_sent(ds) == trend_step(st, c).1 && ds.last() == Data::Trend(
                trend_step(st, c).0.trend->0,
            ),
{
    reveal_with_fuel(all_stored_and_sent, 4);
    let pre = step_markers(st, c);
    let (s2, o, d) = trend_step(st, c);
    let ds = pre.push(Data::Trend(s2.trend->0));
    assert(ds.drop_last() =~= pre);
    assert(all_stored_and_sent(ds) == all_stored_and_sent(pre) + stored_and_sent(Data::Trend(s2.trend->0)));
    let p3 = pre.drop_last();
    let p2 = p3.drop_last();
    let p1 = p2.drop_last();
    if pre.len() == 3 {
        assert(all_stored_and_sent(p1) == Seq::<Dispatch>::empty());
        assert(all_stored_and_sent(p2) == all_stored_and_sent(p1) + stored_and_sent(p2.last()));
        assert(all_stored_and_sent(p3) == all_stored_and_sent(p2) + stored_and_sent(p3.last()));
    } else if pre.len() == 2 {
        assert(all_stored_and_sent(p2) == Seq::<Dispatch>::empty());
        assert(all_stored_and_sent(p3) == all_stored_and_sent(p2) + stored_and_sent(p3.last()));
    }
    assert(all_stored_and_sent(ds) =~= o);
}

/// Cutting a queue keeps exactly its candles after the instant, in order,
/// and cutting again at the same instant changes nothing.
pub proof fn lemma_after_keeps_later(q: Seq<Candle>, dt: i64)
    ensures
        forall|i: int| 0 <= i < after(q, dt).len() ==> #[trigger] after(q, dt)[i].timestamp > dt,
        forall|i: int| 0 <= i < q.len() && q[i].timestamp > dt ==> after(q, dt).contains(#[trigger] q[i]),
        after(after(q, dt), dt) == after(q, dt),
        after(q, dt).len() <= q.len(),
{
    let p = |c: Candle| c.timestamp > dt;
    q.lemma_filter_len(p);
    assert forall|i: int| 0 <= i < after(q, dt).len() implies #[trigger] after(q, dt)[i].timestamp > dt by {
        q.lemma_filter_pred(p, i);
    }
    assert forall|i: int| 0 <= i < q.len() && q[i].timestamp > dt implies after(q, dt).contains(#[trigger] q[i]) by {
        q.lemma_filter_contains(p, i);
    }
    lemma_filter_all(after(q, dt), dt);
}

pub(crate) proof fn lemma_filter_all(q: Seq<Candle>, dt: i64)
    requires
        forall|i: int| 0 <= i < q.len() ==> #[trigger] q[i].timestamp > dt,
    ensures
        after(q, dt) == q,
    decreases q.len(),
{
    reveal_with_fuel(Seq::filter, 1);
    if q.len() > 0 {
        lemma_filter_all(q.drop_last(), dt);
        assert(q.drop_last().push(q.last()) =~= q);
    } else {
        assert(after(q, dt) =~= q);
    }
}

/// A candle going the trend's way with no pull-back extends the trend to
/// the candle's instant and widens it to cover the candle: the low becomes
/// the lower of the two lows, dated by the candle when the candle's low is
/// below the trend's, and the high the higher of the two highs, dated
/// likewise. No pull-back appears, and the trend as it then stands is stored
/// and sent.
pub proof fn lemma_trend_widens(st: TrendState, c: Candle)
    requires
        st.trend is Some,
        st.subtrend is None,
        c.direction == st.trend->0.direction,
    ensures
        ({
            let t = st.trend->0;
            let (n, out, d) = trend_step(st, c);
            let t2 = n.trend->0;
            &&& d is None
            &&& n.trend is Some
            &&& n.subtrend is None
            &&& t2.low == if c.low < t.low { c.low } else { t.low }
            &&& t2.high == if c.high > t.high { c.high } else { t.high }
            &&& t2.low <= c.low && t2.low <= t.low
            &&& t2.high >= c.high && t2.high >= t.high
            &&& t2.low_datetime == if c.low < t.low { Some(c.timestamp) } else { t.low_datetime }
            &&& t2.high_datetime == if c.high > t.high { Some(c.timestamp) } else { t.high_datetime }
            &&& t2.end_time == c.timestamp
            &&& t2.start_time == t.start_time
            &&& t2.direction == t.direction
            &&& out == stored_and_sent(Data::Trend(t2))
        }),
{
}

/// A candle going the trend's way with a bullish or bearish pull-back:
/// closing beyond the pull-back's far extreme (below its low for a bullish
/// pull-back, above its high for a bearish one) breaks it: the pull-back
/// goes and the trend takes its high (bullish) or low (bearish). Otherwise
/// the trend's extremes stay and the pull-back stretches to the higher of
/// its high and the candle's high (bullish) or the lower of its low and the
/// candle's low (bearish). The trend then stands as the last thing stored
/// and sent.
pub proof fn lemma_pull_back_step(st: TrendState, c: Candle)
    requires
        st.trend is Some,
        st.subtrend is Some,
        c.direction == st.trend->0.direction,
        st.subtrend->0.direction != Direction::Doji,
    ensures
        ({
            let t = st.trend->0;
            let s = st.subtrend->0;
            let (n, out, d) = trend_step(st, c);
            let t2 = n.trend->0;
            let breaks = if s.direction == Direction::Bullish { c.close < s.low } else { c.close > s.high };
            &&& d is None
            &&& n.trend is Some
            &&& t2.end_time == c.timestamp
            &&& t2.direction == t.direction
            &&& out.subrange(out.len() - 2, out.len() as int) == stored_and_sent(Data::Trend(t2))
            &&& breaks ==> {
                &&& n.subtrend is None
                &&& out.len() == 8
                &&& s.direction == Direction::Bullish ==> t2.high == s.high && t2.low == t.low
                &&& s.direction == Direction::Bearish ==> t2.low == s.low && t2.high == t.high
            }
            &&& !breaks ==> {
                let s2 = n.subtrend->0;
                &&& n.subtrend is Some
                &&& out.len() == 2
                &&& t2.high == t.high && t2.low == t.low
                &&& s2.start_time == s.start_time && s2.direction == s.direction
                &&& s.direction == Direction::Bullish ==> s2.high == (if c.high > s.high { c.high } else { s.high })
                    && s2.low == s.low
                &&& s.direction == Direction::Bearish ==> s2.low == (if c.low < s.low { c.low } else { s.low })
                    && s2.high == s.high
            }
        }),
{
    let (n, out, d) = trend_step(st, c);
    assert(out.subrange(out.len() - 2, out.len() as int) =~= stored_and_sent(Data::Trend(n.trend->0)));
}

/// A candle against the trend: with no pull-back it opens one spanning the
/// candle, from the candle's instant, and the trend stays as it is. Against
/// a bullish pull-back, closing above the trend's high is a change of
/// character; against a bearish one, closing below the trend's low: the
/// pull-back's start is reported. Against a bullish or bearish pull-back the
/// trend extends to the candle's instant, its extremes and the pull-back
/// kept.
pub proof fn lemma_against_trend(st: TrendState, c: Candle)
    requires
        st.trend is Some,
        c.direction != st.trend->0.direction,
    ensures
        ({
            let t = st.trend->0;
            let (n, out, d) = trend_step(st, c);
            &&& n.trend is Some
            &&& n.trend->0.high == t.high && n.trend->0.low == t.low
            &&& n.trend->0.direction == t.direction
            &&& match st.subtrend {
                None => {
                    &&& d is None
                    &&& n.trend == Some(t)
                    &&& n.subtrend is Some
                    &&& n.subtrend->0.start_time == c.timestamp
                    &&& n.subtrend->0.high == c.high
                    &&& n.subtrend->0.low == c.low
                    &&& n.subtrend->0.direction == c.direction
                },
                Some(s) => {
                    let reverses = (s.direction == Direction::Bullish && c.close > t.high) || (s.direction
                        == Direction::Bearish && c.close < t.low);
                    &&& n.subtrend == Some(s)
                    &&& d == if reverses { Some(s.start_time) } else { None }
                    &&& n.trend->0.end_time == if s.direction == Direction::Doji { t.end_time } else { c.timestamp }
                },
            }
        }),
{
}

/// With no trend, a sideways candle changes nothing and reports nothing; any
/// other candle opens a trend its way spanning the candle, from and to the
/// candle's instant, which is stored and sent.
pub proof fn lemma_trend_opens(st: TrendState, c: Candle)
    requires
        st.trend is None,
    ensures
        ({
            let (n, out, d) = trend_step(st, c);
            &&& d is None
            &&& c.direction == Direction::Doji ==> n == st && out.len() == 0
            &&& c.direction != Direction::Doji ==> {
                let t = n.trend->0;
                &&& n.trend is Some
                &&& t.direction == c.direction
                &&& t.high == c.high && t.low == c.low
                &&& t.start_time == c.timestamp && t.end_time == c.timestamp
                &&& out == stored_and_sent(Data::Trend(t))
            }
        }),
{
}

} // verus!

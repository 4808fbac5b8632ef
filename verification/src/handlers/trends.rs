use vstd::prelude::*;

use dashmap::DashMap;

use crate::application::structures::trend::{after, book_in, copy_queue, opened_subtrend, opened_trend, retain_after};
use crate::domain::entities::symbol::Symbol;
use crate::domain::entities::timerange::Timerange;
use crate::domain::entities::candle::Candle;
use crate::domain::entities::direction::Direction;
use crate::domain::entities::trend::{Subtrend, Trend, TrendBook, TrendState};
use crate::domain::series::{book_slots, key_of, put_book, series_key, take_book, SeriesKey};
use crate::handlers::structures::{OneDStructures, Published, Report, TwoDStructures};

verus! {

/// What processing a candle asks for, in order: an item to publish (sent or
/// stored), the new trend state of the candle's series, or a cut of the
/// series' queue at an instant. Performed in order, a failed send stops the
/// rest, so the trend state changes only where every send before it went
/// through.
#[derive(Clone, Copy, Debug)]
pub enum TrendAction {
    Publish(Report),
    SetState(SeriesKey, TrendState),
    CutQueue(i64),
}

/// A single-price structure of the candle's series, named `structure`.
pub open spec fn named_marker(c: Candle, structure: &'static str, ts: i64, price: i64, direction: &'static str) -> Published {
    Published::OneD(
        OneDStructures {
            symbol: c.symbol,
            structure,
            timerange: c.timerange,
            timestamp: ts,
            price,
            direction,
        },
    )
}

/// The reports of a break of structure of the pull-back `s` at `price` in
/// the direction named `direction`: the break is sent and stored, then the
/// pull-back's relative high and relative low are sent, then stored.
pub open spec fn named_break(c: Candle, s: Subtrend, price: i64, direction: &'static str) -> Seq<TrendAction> {
    let bos = named_marker(c, "Break Of Structure", c.timestamp, price, direction);
    let rh = named_marker(c, "Relative High", s.last_relative_high_datetime, s.high, "Relative High");
    let rl = named_marker(c, "Relative Low", s.last_relative_low_datetime, s.low, "Relative Low");
    seq![
        TrendAction::Publish(Report::Send(bos)),
        TrendAction::Publish(Report::Store(bos)),
        TrendAction::Publish(Report::Send(rh)),
        TrendAction::Publish(Report::Send(rl)),
        TrendAction::Publish(Report::Store(rh)),
        TrendAction::Publish(Report::Store(rl)),
    ]
}

/// The reports of a change of character: the order block spanning `high` and
/// `low` from the pull-back's last candle, then the change of character at
/// `price`, each sent then stored.
pub open spec fn named_reversal(c: Candle, s: Subtrend, high: i64, low: i64, price: i64, direction: &'static str) -> Seq<
    TrendAction,
> {
    let ob = Published::TwoD(
        TwoDStructures {
            symbol: c.symbol,
            structure: "Order Block",
            timerange: c.timerange,
            timestamp: s.last_candle.timestamp,
            high,
            low,
            direction,
        },
    );
    let choch = named_marker(c, "Change Of Character", c.timestamp, price, direction);
    seq![
        TrendAction::Publish(Report::Send(ob)),
        TrendAction::Publish(Report::Store(ob)),
        TrendAction::Publish(Report::Send(choch)),
        TrendAction::Publish(Report::Store(choch)),
    ]
}

/// A candle can be applied to the trend state `st`: a change of character
/// against a bullish pull-back reads the trend's relative high, and one
/// against a bearish pull-back its relative low.
pub open spec fn named_step_defined(st: TrendState, c: Candle) -> bool {
    match (st.trend, st.subtrend) {
        (Some(t), Some(s)) => c.direction != t.direction ==> {
            &&& (s.direction == Direction::Bullish && c.close > t.high) ==> t.relative_high is Some
            &&& (s.direction == Direction::Bearish && c.close < t.low) ==> t.relative_low is Some
        },
        _ => true,
    }
}

/// Trends in the state carry their relative high and low.
pub open spec fn named_state_ok(st: TrendState) -> bool {
    st.trend is Some ==> st.trend->0.relative_high is Some && st.trend->0.relative_low is Some
}

/// What one candle does to the trend state of its series. A candle in the
/// trend's direction extends the trend and breaks, stretches, or (with no
/// pull-back) moves the trend's extremes; a candle against it opens a
/// pull-back or, when it closes beyond the trend's extreme against a
/// bullish or bearish pull-back, is a change of character: the trend is then
/// sent, stored and dropped with its pull-back, and the start of the
/// pull-back is returned. A sideways candle opens no trend. The actions set
/// the new state once the structures before it are published; on a change of
/// character the extended trend is set, then sent and stored, then dropped.
pub open spec fn named_step(st: TrendState, c: Candle) -> (TrendState, Seq<TrendAction>, Option<i64>) {
    match st.trend {
        None => if c.direction == Direction::Doji {
            (st, seq![], None)
        } else {
            let n = TrendState { trend: Some(opened_trend(c)), ..st };
            (n, seq![TrendAction::SetState(key_of(c.symbol, c.timerange), n)], None)
        },
        Some(t) => {
            let (t2, sub2, out, at) = if c.direction == t.direction {
                let t1 = Trend { end_time: c.timestamp, ..t };
                match st.subtrend {
                    Some(s) => if s.direction == Direction::Bullish {
                        if c.close < s.low {
                            (Trend { high: s.high, ..t1 }, None, named_break(c, s, s.low, "Bearish"), None)
                        } else if c.high > s.high {
                            (
                                t1,
                                Some(
                                    Subtrend {
                                        high: c.high,
                                        last_relative_high: c.high,
                                        last_relative_high_datetime: c.timestamp,
                                        ..s
                                    },
                                ),
                                seq![],
                                None,
                            )
                        } else {
                            (t1, Some(s), seq![], None)
                        }
                    } else if c.close > s.high {
                        (Trend { low: s.low, ..t1 }, None, named_break(c, s, s.high, "Bullish"), None)
                    } else if c.low < s.low {
                        (
                            t1,
                            Some(
                                Subtrend {
                                    low: c.low,
                                    last_relative_low: c.low,
                                    last_relative_low_datetime: c.timestamp,
                                    ..s
                                },
                            ),
                            seq![],
                            None,
                        )
                    } else {
                        (t1, Some(s), seq![], None)
                    },
                    None => {
                        let t2 = if t.low > c.low {
                            Trend { low: c.low, low_datetime: Some(c.timestamp), ..t1 }
                        } else {
                            t1
                        };
                        let t3 = if t.high < c.high {
                            Trend { high: c.high, high_datetime: Some(c.timestamp), ..t2 }
                        } else {
                            t2
                        };
                        (t3, None, seq![], None)
                    },
                }
            } else {
                match st.subtrend {
                    Some(s) => if s.direction == Direction::Bullish {
                        let t1 = Trend { end_time: c.timestamp, ..t };
                        if c.close > t.high {
                            (
                                t1,
                                Some(s),
                                named_reversal(c, s, s.last_candle.high, s.last_relative_low, t.relative_high->0, "Bullish"),
                                Some(s.start_time),
                            )
                        } else {
                            (t1, Some(s), seq![], None)
                        }
                    } else if s.direction == Direction::Bearish {
                        let t1 = Trend { end_time: c.timestamp, ..t };
                        if c.close < t.low {
                            (
                                t1,
                                Some(s),
                                named_reversal(c, s, s.last_candle.high, s.last_candle.low, t.relative_low->0, "Bearish"),
                                Some(s.start_time),
                            )
                        } else {
                            (t1, Some(s), seq![], None)
                        }
                    } else {
                        (t, Some(s), seq![], None)
                    },
                    None => (t, Some(opened_subtrend(c)), seq![], None),
                }
            };
            let n = TrendState { trend: Some(t2), subtrend: sub2 };
            if at is Some {
                (
                    no_trend(),
                    out + seq![
                        TrendAction::SetState(key_of(c.symbol, c.timerange), n),
                        TrendAction::Publish(Report::Send(Published::Trend(t2))),
                        TrendAction::Publish(Report::Store(Published::Trend(t2))),
                        TrendAction::SetState(key_of(c.symbol, c.timerange), no_trend()),
                    ],
                    at,
                )
            } else {
                (n, out + seq![TrendAction::SetState(key_of(c.symbol, c.timerange), n)], None)
            }
        },
    }
}

fn marker_of(c: &Candle, structure: &'static str, ts: i64, price: i64, direction: &'static str) -> (p: Published)
    ensures
        p == named_marker(*c, structure, ts, price, direction),
{
    Published::OneD(
        OneDStructures {
            symbol: c.symbol,
            structure,
            timerange: c.timerange,
            timestamp: ts,
            price,
            direction,
        },
    )
}

fn push_named_break(out: &mut Vec<TrendAction>, c: &Candle, s: &Subtrend, price: i64, direction: &'static str)
    ensures
        final(out)@ == old(out)@ + named_break(*c, *s, price, direction),
{
    let bos = marker_of(c, "Break Of Structure", c.timestamp, price, direction);
    let rh = marker_of(c, "Relative High", s.last_relative_high_datetime, s.high, "Relative High");
    let rl = marker_of(c, "Relative Low", s.last_relative_low_datetime, s.low, "Relative Low");
    out.push(TrendAction::Publish(Report::Send(bos)));
    out.push(TrendAction::Publish(Report::Store(bos)));
    out.push(TrendAction::Publish(Report::Send(rh)));
    out.push(TrendAction::Publish(Report::Send(rl)));
    out.push(TrendAction::Publish(Report::Store(rh)));
    out.push(TrendAction::Publish(Report::Store(rl)));
    assert(final(out)@ =~= old(out)@ + named_break(*c, *s, price, direction));
}

fn push_named_reversal(
    out: &mut Vec<TrendAction>,
    c: &Candle,
    s: &Subtrend,
    high: i64,
    low: i64,
    price: i64,
    direction: &'static str,
)
    ensures
        final(out)@ == old(out)@ + named_reversal(*c, *s, high, low, price, direction),
{
    let ob = Published::TwoD(
        TwoDStructures {
            symbol: c.symbol,
            structure: "Order Block",
            timerange: c.timerange,
            timestamp: s.last_candle.timestamp,
            high,
            low,
            direction,
        },
    );
    let choch = marker_of(c, "Change Of Character", c.timestamp, price, direction);
    out.push(TrendAction::Publish(Report::Send(ob)));
    out.push(TrendAction::Publish(Report::Store(ob)));
    out.push(TrendAction::Publish(Report::Send(choch)));
    out.push(TrendAction::Publish(Report::Store(choch)));
    assert(final(out)@ =~= old(out)@ + named_reversal(*c, *s, high, low, price, direction));
}

/// Applies one candle to the trend state of its series; returns what is
/// sent and stored, and, on a change of character, the start of the
/// reversed pull-back.
pub fn named_step_exec(st: &mut TrendState, candle: &Candle) -> (res: (Vec<TrendAction>, Option<i64>))
    requires
        named_step_defined(*old(st), *candle),
    ensures
        (*final(st), res.0@, res.1) == named_step(*old(st), *candle),
        named_state_ok(*old(st)) ==> named_state_ok(*final(st)),
{
    let c = *candle;
    let mut out: Vec<TrendAction> = Vec::new();
    let mut datetime: Option<i64> = None;
    match st.trend {
        None => {
            if c.direction == Direction::Doji {
                return (out, None);
            }
            st.trend = Some(
                Trend {
                    symbol: c.symbol,
                    timerange: c.timerange,
                    start_time: c.timestamp,
                    end_time: c.timestamp,
                    direction: c.direction,
                    high: c.high,
                    low: c.low,
                    high_datetime: Some(c.timestamp),
                    low_datetime: Some(c.timestamp),
                    relative_high: Some(c.high),
                    relative_low: Some(c.low),
                },
            );
            out.push(TrendAction::SetState(series_key(c.symbol, &c.timerange), *st));
            return (out, None);
        },
        Some(trend) => {
            let mut modified = trend;
            if c.direction == trend.direction {
                modified.end_time = c.timestamp;
                match st.subtrend {
                    Some(s) => {
                        if s.direction == Direction::Bullish {
                            if c.close < s.low {
                                modified.high = s.high;
                                push_named_break(&mut out, &c, &s, s.low, "Bearish");
                                st.subtrend = None;
                            } else {
                                let mut m = s;
                                if c.high > s.high {
                                    m.high = c.high;
                                    m.last_relative_high = c.high;
                                    m.last_relative_high_datetime = c.timestamp;
                                }
                                st.subtrend = Some(m);
                            }
                        } else {
                            if c.close > s.high {
                                modified.low = s.low;
                                push_named_break(&mut out, &c, &s, s.high, "Bullish");
                                st.subtrend = None;
                            } else {
                                let mut m = s;
                                if c.low < s.low {
                                    m.low = c.low;
                                    m.last_relative_low = c.low;
                                    m.last_relative_low_datetime = c.timestamp;
                                }
                                st.subtrend = Some(m);
                            }
                        }
                    },
                    None => {
                        if trend.low > c.low {
                            modified.low = c.low;
                            modified.low_datetime = Some(c.timestamp);
                        }
                        if trend.high < c.high {
                            modified.high = c.high;
                            modified.high_datetime = Some(c.timestamp);
                        }
                    },
                }
            } else {
                match st.subtrend {
                    Some(s) => {
                        if s.direction == Direction::Bullish {
                            modified.end_time = c.timestamp;
                            if c.close > trend.high {
                                datetime = Some(s.start_time);
                                let price = trend.relative_high.unwrap();
                                push_named_reversal(&mut out, &c, &s, s.last_candle.high, s.last_relative_low, price, "Bullish");
                            }
                        } else if s.direction == Direction::Bearish {
                            modified.end_time = c.timestamp;
                            if c.close < trend.low {
                                datetime = Some(s.start_time);
                                let price = trend.relative_low.unwrap();
                                push_named_reversal(&mut out, &c, &s, s.last_candle.high, s.last_candle.low, price, "Bearish");
                            }
                        }
                    },
                    None => {
                        st.subtrend = Some(
                            Subtrend {
                                start_time: c.timestamp,
                                direction: c.direction,
                                high: c.high,
                                low: c.low,
                                last_relative_low: c.low,
                                last_relative_high: c.high,
                                last_candle: c,
                                last_relative_low_datetime: c.timestamp,
                                last_relative_high_datetime: c.timestamp,
                            },
                        );
                    },
                }
            }
            st.trend = Some(modified);
            let key = series_key(c.symbol, &c.timerange);
            out.push(TrendAction::SetState(key, *st));
            if datetime.is_some() {
                out.push(TrendAction::Publish(Report::Send(Published::Trend(modified))));
                out.push(TrendAction::Publish(Report::Store(Published::Trend(modified))));
                st.trend = None;
                st.subtrend = None;
                out.push(TrendAction::SetState(key, *st));
            }
        },
    }
    (out, datetime)
}

/// Works out what a candle does to the trend state of its series: the
/// actions to perform, in order (publishing, then setting the new state), and,
/// on a change of character, the start of the reversed pull-back. The store
/// itself is left as it is: the state changes when the actions are performed.
pub fn get_trends(books: &mut DashMap<SeriesKey, TrendBook>, candle: &Candle) -> (res: (Vec<TrendAction>, Option<i64>))
    requires
        named_step_defined(book_in(book_slots(*old(books)), key_of(candle.symbol, candle.timerange)).0, *candle),
    ensures
        book_slots(*final(books)) == book_slots(*old(books)),
        ({
            let (st, q) = book_in(book_slots(*old(books)), key_of(candle.symbol, candle.timerange));
            let (st2, o, d) = named_step(st, *candle);
            &&& res.0@ == o
            &&& res.1 == d
        }),
{
    let key = series_key(candle.symbol, &candle.timerange);
    match take_book(books, key) {
        Some(book) => {
            let mut st = book.state;
            let res = named_step_exec(&mut st, candle);
            put_book(books, key, book);
            proof {
                assert(book_slots(*final(books)) =~= book_slots(*old(books)));
            }
            res
        },
        None => {
            let mut st = TrendState { trend: None, subtrend: None };
            named_step_exec(&mut st, candle)
        },
    }
}

/// Sets the trend state of the series `key`, keeping its queue (an empty one
/// when the series has none yet).
pub fn set_trend_state(books: &mut DashMap<SeriesKey, TrendBook>, key: SeriesKey, state: TrendState)
    ensures
        book_slots(*final(books)) == book_slots(*old(books)).insert(key, (state, book_in(book_slots(*old(books)), key).1)),
{
    let mut book = match take_book(books, key) {
        Some(b) => b,
        None => TrendBook { state: TrendState { trend: None, subtrend: None }, queue: Vec::new() },
    };
    book.state = state;
    put_book(books, key, book);
    proof {
        assert(book_slots(*final(books)) =~= book_slots(*old(books)).insert(key, (state, book_in(book_slots(*old(books)), key).1)));
    }
}

/// Drops from the queue of the series `key` the candles at or before
/// `datetime`; fails when the series has no queue.
pub fn process_queue(books: &mut DashMap<SeriesKey, TrendBook>, key: SeriesKey, datetime: i64) -> (res: Result<(), String>)
    ensures
        book_slots(*old(books)).contains_key(key) ==> res is Ok && book_slots(*final(books)) == book_slots(*old(books)).insert(
            key,
            (book_slots(*old(books))[key].0, after(book_slots(*old(books))[key].1, datetime)),
        ),
        !book_slots(*old(books)).contains_key(key) ==> res is Err && res->Err_0@ == "No queue found for the given key"@
            && book_slots(*final(books)) == book_slots(*old(books)),
{
    match take_book(books, key) {
        Some(mut book) => {
            retain_after(&mut book.queue, datetime);
            put_book(books, key, book);
            assert(book_slots(*final(books)) =~= book_slots(*old(books)).insert(
                key,
                (book_slots(*old(books))[key].0, after(book_slots(*old(books))[key].1, datetime)),
            ));
            Ok(())
        },
        None => {
            assert(book_slots(*final(books)) =~= book_slots(*old(books)));
            Err(String::from_str("No queue found for the given key"))
        },
    }
}

/// The state with no trend and no pull-back.
pub open spec fn no_trend() -> TrendState {
    TrendState { trend: None, subtrend: None }
}

/// The series of a candle.
pub open spec fn series_of(c: Candle) -> SeriesKey {
    key_of(c.symbol, c.timerange)
}

/// The trend state of the series `k` among the states `ss`: no trend for a
/// series that has none.
pub open spec fn state_at(ss: Map<SeriesKey, TrendState>, k: SeriesKey) -> TrendState {
    if ss.contains_key(k) {
        ss[k]
    } else {
        no_trend()
    }
}

/// The trend states held in a store of trend books.
pub open spec fn states_of(m: Map<SeriesKey, (TrendState, Seq<Candle>)>) -> Map<SeriesKey, TrendState> {
    Map::new(|k: SeriesKey| m.contains_key(k), |k: SeriesKey| m[k].0)
}

/// Applies a candle to the trend state of its own series among `ss`: the
/// new states, the actions, and the start of a reversed pull-back. `None`
/// where the step is not defined.
pub open spec fn step_in(ss: Map<SeriesKey, TrendState>, c: Candle) -> Option<
    (Map<SeriesKey, TrendState>, Seq<TrendAction>, Option<i64>),
> {
    let st = state_at(ss, series_of(c));
    if !named_step_defined(st, c) {
        None
    } else {
        let (s1, o, d) = named_step(st, c);
        Some((if o.len() == 0 { ss } else { ss.insert(series_of(c), s1) }, o, d))
    }
}

/// Replays the queue `q` candle by candle, each on its own series, until one
/// of them is a change of character: the states after the replay, the
/// actions, and the start of the reversed pull-back, if one was found.
pub open spec fn scan_in(ss: Map<SeriesKey, TrendState>, q: Seq<Candle>) -> Option<
    (Map<SeriesKey, TrendState>, Seq<TrendAction>, Option<i64>),
>
    decreases q.len(),
{
    if q.len() == 0 {
        Some((ss, seq![], None))
    } else {
        match step_in(ss, q[0]) {
            None => None,
            Some((s1, o1, d1)) => if d1 is Some {
                Some((s1, o1, d1))
            } else {
                match scan_in(s1, q.drop_first()) {
                    None => None,
                    Some((s2, o2, d2)) => Some((s2, o1 + o2, d2)),
                }
            },
        }
    }
}

/// The queue holds a candle at the instant `t`.
pub open spec fn stamped(q: Seq<Candle>, t: i64) -> bool {
    exists|j: int| 0 <= j < q.len() && #[trigger] q[j].timestamp == t
}

/// The series `k` has a pull-back that no candle of the queue `q` opened.
pub open spec fn foreign(ss: Map<SeriesKey, TrendState>, q: Seq<Candle>, k: SeriesKey) -> bool {
    &&& state_at(ss, k).subtrend is Some
    &&& !stamped(q, state_at(ss, k).subtrend->0.start_time)
}

/// How many candles of `r` belong to a series with a pull-back that no
/// candle of the queue `q` opened.
pub open spec fn foreign_count(ss: Map<SeriesKey, TrendState>, q: Seq<Candle>, r: Seq<Candle>) -> nat
    decreases r.len(),
{
    if r.len() == 0 {
        0
    } else {
        foreign_count(ss, q, r.drop_last()) + if foreign(ss, q, series_of(r.last())) {
            1nat
        } else {
            0nat
        }
    }
}

/// Replays the queue `q` from the states `ss`; each change of character cuts
/// the queue at the start of the reversed pull-back and starts the replay
/// again, until a replay finds none. `None` where a step is not defined.
pub open spec fn drain_in(ss: Map<SeriesKey, TrendState>, q: Seq<Candle>) -> Option<
    (Map<SeriesKey, TrendState>, Seq<Candle>, Seq<TrendAction>),
>
    decreases q.len(), foreign_count(ss, q, q),
    via drain_in_decreases
{
    match scan_in(ss, q) {
        None => None,
        Some((s1, o1, d1)) => match d1 {
            None => Some((s1, q, o1)),
            Some(d) => match drain_in(s1, after(q, d)) {
                None => None,
                Some((s2, q2, o2)) => Some((s2, q2, o1 + seq![TrendAction::CutQueue(d)] + o2)),
            },
        },
    }
}

#[via_fn]
proof fn drain_in_decreases(ss: Map<SeriesKey, TrendState>, q: Seq<Candle>) {
    lemma_drain_progress(ss, q);
}

/// What processing candle `c` does, with trend states `ss` and the queue `q`
/// (already holding the candle): the candle is applied to its series; after
/// a change of character the queue is cut at the start of the reversed
/// pull-back and replayed as `drain_in` does. The new states, the new queue
/// and the actions; `None` where a step is not defined.
pub open spec fn process_in(ss: Map<SeriesKey, TrendState>, q: Seq<Candle>, c: Candle) -> Option<
    (Map<SeriesKey, TrendState>, Seq<Candle>, Seq<TrendAction>),
> {
    match step_in(ss, c) {
        None => None,
        Some((s1, o1, d1)) => match d1 {
            None => Some((s1, q, o1)),
            Some(d) => match drain_in(s1, after(q, d)) {
                None => None,
                Some((s2, q2, o2)) => Some((s2, q2, o1 + seq![TrendAction::CutQueue(d)] + o2)),
            },
        },
    }
}

/// A change of character leaves no trend behind, and the instant it reports
/// is the start of the pull-back of the state it was found in.
proof fn lemma_step_reversal(st: TrendState, c: Candle)
    ensures
        named_step(st, c).2 is Some ==> named_step(st, c).0 == no_trend() && st.subtrend is Some
            && named_step(st, c).2->0 == st.subtrend->0.start_time,
        named_step(st, c).2 is None ==> (named_step(st, c).0.subtrend is None || (st.subtrend is Some
            && named_step(st, c).0.subtrend->0.start_time == st.subtrend->0.start_time)
            || named_step(st, c).0.subtrend->0.start_time == c.timestamp),
        named_step(st, c).1.len() == 0 ==> named_step(st, c).0 == st && named_step(st, c).2 is None,
{
}

/// A step on a queued candle opens no pull-back that the queue does not
/// explain; a change of character it finds clears its series, whose pull-back
/// was one the queue does not explain unless the queue holds its start.
proof fn lemma_step_foreign(ss: Map<SeriesKey, TrendState>, q: Seq<Candle>, c: Candle)
    requires
        stamped(q, c.timestamp),
        step_in(ss, c) is Some,
    ensures
        forall|k: SeriesKey| #[trigger] foreign(step_in(ss, c).unwrap().0, q, k) ==> foreign(ss, q, k),
        step_in(ss, c).unwrap().2 is Some ==> !foreign(step_in(ss, c).unwrap().0, q, series_of(c)),
        step_in(ss, c).unwrap().2 is Some && !stamped(q, step_in(ss, c).unwrap().2->0) ==> foreign(ss, q, series_of(c)),
{
    let st = state_at(ss, series_of(c));
    lemma_step_reversal(st, c);
    let (s1, o, d) = step_in(ss, c)->0;
    assert forall|k: SeriesKey| #[trigger] foreign(s1, q, k) implies foreign(ss, q, k) by {
        if k == series_of(c) && o.len() != 0 {
            let n = named_step(st, c).0;
            assert(state_at(s1, k) == n);
            if !(st.subtrend is Some && n.subtrend->0.start_time == st.subtrend->0.start_time) {
                assert(n.subtrend->0.start_time == c.timestamp);
            }
        }
    }
}

/// Over a replay of queued candles, no series gains a pull-back that the
/// queue does not explain; a change of character found at a start that the
/// queue does not hold clears a series of a replayed candle whose pull-back
/// the queue did not explain.
proof fn lemma_scan_foreign(ss: Map<SeriesKey, TrendState>, q: Seq<Candle>, r: Seq<Candle>)
    requires
        forall|i: int| 0 <= i < r.len() ==> stamped(q, #[trigger] r[i].timestamp),
        scan_in(ss, r) is Some,
    ensures
        forall|k: SeriesKey| #[trigger] foreign(scan_in(ss, r).unwrap().0, q, k) ==> foreign(ss, q, k),
        scan_in(ss, r).unwrap().2 is Some && !stamped(q, scan_in(ss, r).unwrap().2->0) ==> exists|j: int|
            0 <= j < r.len() && foreign(ss, q, series_of(#[trigger] r[j])) && !foreign(
                scan_in(ss, r).unwrap().0,
                q,
                series_of(r[j]),
            ),
    decreases r.len(),
{
    if r.len() > 0 {
        assert(stamped(q, r[0].timestamp));
        lemma_step_foreign(ss, q, r[0]);
        let (s1, o1, d1) = step_in(ss, r[0])->0;
        if d1 is None {
            let rest = r.drop_first();
            assert forall|i: int| 0 <= i < rest.len() implies stamped(q, #[trigger] rest[i].timestamp) by {
                assert(rest[i] == r[i + 1]);
            }
            lemma_scan_foreign(s1, q, rest);
            let (s2, o2, d2) = scan_in(s1, rest)->0;
            if d2 is Some && !stamped(q, d2->0) {
                let j = choose|j: int|
                    0 <= j < rest.len() && foreign(s1, q, series_of(#[trigger] rest[j])) && !foreign(s2, q, series_of(rest[j]));
                assert(r[j + 1] == rest[j]);
                assert(foreign(ss, q, series_of(r[j + 1])));
            }
        } else {
            assert(0 <= 0 < r.len() && foreign(ss, q, series_of(r[0])) ==> !foreign(s1, q, series_of(r[0])));
        }
    }
}

proof fn lemma_count_le(a: Map<SeriesKey, TrendState>, b: Map<SeriesKey, TrendState>, q: Seq<Candle>, r: Seq<Candle>)
    requires
        forall|k: SeriesKey| #[trigger] foreign(b, q, k) ==> foreign(a, q, k),
    ensures
        foreign_count(b, q, r) <= foreign_count(a, q, r),
    decreases r.len(),
{
    if r.len() > 0 {
        lemma_count_le(a, b, q, r.drop_last());
    }
}

proof fn lemma_count_lt(a: Map<SeriesKey, TrendState>, b: Map<SeriesKey, TrendState>, q: Seq<Candle>, r: Seq<Candle>, j: int)
    requires
        forall|k: SeriesKey| #[trigger] foreign(b, q, k) ==> foreign(a, q, k),
        0 <= j < r.len(),
        foreign(a, q, series_of(r[j])),
        !foreign(b, q, series_of(r[j])),
    ensures
        foreign_count(b, q, r) < foreign_count(a, q, r),
    decreases r.len(),
{
    let p = r.drop_last();
    if j == r.len() - 1 {
        lemma_count_le(a, b, q, p);
    } else {
        assert(p[j] == r[j]);
        lemma_count_lt(a, b, q, p, j);
    }
}

/// Each change of character found in a replay either shortens the queue, or
/// leaves it as it is and clears a pull-back that the queue does not explain.
proof fn lemma_drain_progress(ss: Map<SeriesKey, TrendState>, q: Seq<Candle>)
    ensures
        scan_in(ss, q) is Some && scan_in(ss, q).unwrap().2 is Some ==> ({
            let (s1, o1, d1) = scan_in(ss, q)->0;
            let q1 = after(q, d1->0);
            ||| q1.len() < q.len()
            ||| q1 == q && foreign_count(s1, q1, q1) < foreign_count(ss, q, q)
        }),
{
    if scan_in(ss, q) is Some && scan_in(ss, q).unwrap().2 is Some {
        let (s1, o1, d1) = scan_in(ss, q)->0;
        let d = d1->0;
        assert forall|i: int| 0 <= i < q.len() implies stamped(q, #[trigger] q[i].timestamp) by {
            assert(q[i].timestamp == q[i].timestamp);
        }
        lemma_scan_foreign(ss, q, q);
        if exists|j: int| 0 <= j < q.len() && #[trigger] q[j].timestamp <= d {
            let j = choose|j: int| 0 <= j < q.len() && #[trigger] q[j].timestamp <= d;
            lemma_after_shorter(q, d, j);
        } else {
            assert forall|i: int| 0 <= i < q.len() implies #[trigger] q[i].timestamp > d by {
                assert(!(q[i].timestamp <= d));
            }
            crate::application::structures::trend::lemma_filter_all(q, d);
            assert(!stamped(q, d)) by {
                if stamped(q, d) {
                    let j = choose|j: int| 0 <= j < q.len() && #[trigger] q[j].timestamp == d;
                    assert(q[j].timestamp > d);
                }
            }
            let j = choose|j: int|
                0 <= j < q.len() && foreign(ss, q, series_of(#[trigger] q[j])) && !foreign(s1, q, series_of(q[j]));
            lemma_count_lt(ss, s1, q, q, j);
        }
    }
}

/// Cutting a queue at an instant that a queued candle does not pass makes it shorter.
proof fn lemma_after_shorter(q: Seq<Candle>, d: i64, j: int)
    requires
        0 <= j < q.len(),
        q[j].timestamp <= d,
    ensures
        after(q, d).len() < q.len(),
    decreases q.len(),
{
    reveal_with_fuel(Seq::filter, 1);
    let p = q.drop_last();
    assert(q =~= p.push(q.last()));
    if j == q.len() - 1 {
        lemma_after_len_le(p, d);
    } else {
        lemma_after_shorter(p, d, j);
    }
}

proof fn lemma_after_len_le(q: Seq<Candle>, d: i64)
    ensures
        after(q, d).len() <= q.len(),
{
    q.lemma_filter_len(|c: Candle| c.timestamp > d);
}

/// The states `ss` with the working states `ws` written over them in order.
pub open spec fn overlay(ss: Map<SeriesKey, TrendState>, ws: Seq<(SeriesKey, TrendState)>) -> Map<SeriesKey, TrendState>
    decreases ws.len(),
{
    if ws.len() == 0 {
        ss
    } else {
        overlay(ss, ws.drop_last()).insert(ws.last().0, ws.last().1)
    }
}

/// Prepends `o` to the actions of a step or a replay.
pub open spec fn with_prefix(o: Seq<TrendAction>, r: Option<(Map<SeriesKey, TrendState>, Seq<TrendAction>, Option<i64>)>) -> Option<
    (Map<SeriesKey, TrendState>, Seq<TrendAction>, Option<i64>),
> {
    match r {
        None => None,
        Some((s, o2, d)) => Some((s, o + o2, d)),
    }
}

/// Prepends `o` to the actions of a replay loop.
pub open spec fn with_prefix3(o: Seq<TrendAction>, r: Option<(Map<SeriesKey, TrendState>, Seq<Candle>, Seq<TrendAction>)>) -> Option<
    (Map<SeriesKey, TrendState>, Seq<Candle>, Seq<TrendAction>),
> {
    match r {
        None => None,
        Some((s, q, o2)) => Some((s, q, o + o2)),
    }
}

fn read_book(books: &mut DashMap<SeriesKey, TrendBook>, key: SeriesKey) -> (r: (TrendState, Vec<Candle>))
    ensures
        book_slots(*final(books)) == book_slots(*old(books)),
        r.0 == book_in(book_slots(*old(books)), key).0,
        r.1@ == book_in(book_slots(*old(books)), key).1,
{
    match take_book(books, key) {
        Some(b) => {
            let st = b.state;
            let q = copy_queue(&b.queue);
            put_book(books, key, b);
            assert(book_slots(*final(books)) =~= book_slots(*old(books)));
            (st, q)
        },
        None => (TrendState { trend: None, subtrend: None }, Vec::new()),
    }
}

fn same_key(a: SeriesKey, b: SeriesKey) -> (r: bool)
    ensures
        r == (a == b),
{
    a.0 == b.0 && a.1 == b.1
}

fn state_of_series(books: &mut DashMap<SeriesKey, TrendBook>, ws: &Vec<(SeriesKey, TrendState)>, key: SeriesKey) -> (st: TrendState)
    ensures
        book_slots(*final(books)) == book_slots(*old(books)),
        st == state_at(overlay(states_of(book_slots(*old(books))), ws@), key),
{
    let ghost base = states_of(book_slots(*old(books)));
    let mut i = ws.len();
    assert(ws@.take(i as int) =~= ws@);
    while i > 0
        invariant
            i <= ws@.len(),
            book_slots(*books) == book_slots(*old(books)),
            base == states_of(book_slots(*old(books))),
            state_at(overlay(base, ws@), key) == state_at(overlay(base, ws@.take(i as int)), key),
        decreases i,
    {
        assert(ws@.take(i as int).drop_last() =~= ws@.take(i - 1));
        assert(ws@.take(i as int).last() == ws@[i - 1]);
        let (k, s) = ws[i - 1];
        if same_key(k, key) {
            return s;
        }
        i = i - 1;
    }
    assert(ws@.take(0) =~= Seq::<(SeriesKey, TrendState)>::empty());
    let (st, _q) = read_book(books, key);
    st
}

fn named_step_defined_exec(st: &TrendState, c: &Candle) -> (b: bool)
    ensures
        b == named_step_defined(*st, *c),
{
    match (st.trend, st.subtrend) {
        (Some(t), Some(s)) => {
            if c.direction == t.direction {
                true
            } else {
                (!(s.direction == Direction::Bullish && c.close > t.high) || t.relative_high.is_some()) && (!(
                s.direction == Direction::Bearish && c.close < t.low) || t.relative_low.is_some())
            }
        },
        _ => true,
    }
}

fn step_in_exec(books: &mut DashMap<SeriesKey, TrendBook>, ws: &mut Vec<(SeriesKey, TrendState)>, c: &Candle) -> (r: Option<
    (Vec<TrendAction>, Option<i64>),
>)
    ensures
        book_slots(*final(books)) == book_slots(*old(books)),
        ({
            let base = states_of(book_slots(*old(books)));
            let sp = step_in(overlay(base, old(ws)@), *c);
            &&& (r is Some) == (sp is Some)
            &&& r is Some ==> r.unwrap().0@ == sp.unwrap().1 && r.unwrap().1 == sp.unwrap().2 && overlay(base, final(ws)@)
                == sp.unwrap().0
        }),
{
    let key = series_key(c.symbol, &c.timerange);
    let mut st = state_of_series(books, ws, key);
    if !named_step_defined_exec(&st, c) {
        return None;
    }
    let (o, d) = named_step_exec(&mut st, c);
    if o.len() > 0 {
        let ghost before = ws@;
        ws.push((key, st));
        proof {
            assert(ws@.drop_last() =~= before);
        }
    }
    Some((o, d))
}

proof fn lemma_prefix_assoc(a: Seq<TrendAction>, b: Seq<TrendAction>, r: Option<(Map<SeriesKey, TrendState>, Seq<TrendAction>, Option<i64>)>)
    ensures
        with_prefix(a, with_prefix(b, r)) == with_prefix(a + b, r),
{
    if let Some((s, o, d)) = r {
        assert(a + (b + o) =~= (a + b) + o);
    }
}

proof fn lemma_prefix3_assoc(a: Seq<TrendAction>, b: Seq<TrendAction>, r: Option<(Map<SeriesKey, TrendState>, Seq<Candle>, Seq<TrendAction>)>)
    ensures
        with_prefix3(a, with_prefix3(b, r)) == with_prefix3(a + b, r),
{
    if let Some((s, q, o)) = r {
        assert(a + (b + o) =~= (a + b) + o);
    }
}

fn scan_in_exec(books: &mut DashMap<SeriesKey, TrendBook>, ws: &mut Vec<(SeriesKey, TrendState)>, q: &Vec<Candle>) -> (r: Option<
    (Vec<TrendAction>, Option<i64>),
>)
    ensures
        book_slots(*final(books)) == book_slots(*old(books)),
        ({
            let base = states_of(book_slots(*old(books)));
            let sp = scan_in(overlay(base, old(ws)@), q@);
            &&& (r is Some) == (sp is Some)
            &&& r is Some ==> r.unwrap().0@ == sp.unwrap().1 && r.unwrap().1 == sp.unwrap().2 && overlay(base, final(ws)@)
                == sp.unwrap().0
        }),
{
    let ghost base = states_of(book_slots(*old(books)));
    let ghost total = scan_in(overlay(base, ws@), q@);
    let mut out: Vec<TrendAction> = Vec::new();
    let n = q.len();
    let mut i: usize = 0;
    assert(q@.skip(0) =~= q@);
    proof {
        if let Some((s, o, d)) = total {
            assert(seq![] + o =~= o);
        }
    }
    while i < n
        invariant
            n == q@.len(),
            i <= n,
            book_slots(*books) == book_slots(*old(books)),
            base == states_of(book_slots(*old(books))),
            total == scan_in(overlay(base, old(ws)@), q@),
            total == with_prefix(out@, scan_in(overlay(base, ws@), q@.skip(i as int))),
        decreases n - i,
    {
        assert(q@.skip(i as int)[0] == q@[i as int]);
        assert(q@.skip(i as int).drop_first() =~= q@.skip(i + 1));
        let ghost s_before = overlay(base, ws@);
        let c = q[i];
        match step_in_exec(books, ws, &c) {
            None => {
                return None;
            },
            Some((mut o, d)) => {
                let ghost ov = o@;
                let ghost out_before = out@;
                out.append(&mut o);
                if d.is_some() {
                    return Some((out, d));
                }
                proof {
                    lemma_prefix_assoc(out_before, ov, scan_in(overlay(base, ws@), q@.skip(i + 1)));
                }
            },
        }
        i = i + 1;
    }
    assert(q@.skip(n as int) =~= Seq::<Candle>::empty());
    proof {
        assert(out@ + seq![] =~= out@);
    }
    Some((out, None))
}

fn process_in_exec(
    books: &mut DashMap<SeriesKey, TrendBook>,
    ws: &mut Vec<(SeriesKey, TrendState)>,
    q: &mut Vec<Candle>,
    c: &Candle,
) -> (r: Option<Vec<TrendAction>>)
    ensures
        book_slots(*final(books)) == book_slots(*old(books)),
        ({
            let sp = process_in(overlay(states_of(book_slots(*old(books))), old(ws)@), old(q)@, *c);
            &&& (r is Some) == (sp is Some)
            &&& r is Some ==> r.unwrap()@ == sp.unwrap().2
        }),
{
    let ghost base = states_of(book_slots(*old(books)));
    let ghost total = process_in(overlay(base, ws@), q@, *c);
    let ghost q0 = q@;
    let (mut out, d) = match step_in_exec(books, ws, c) {
        None => {
            return None;
        },
        Some(x) => x,
    };
    let dt = match d {
        None => {
            return Some(out);
        },
        Some(dt) => dt,
    };
    out.push(TrendAction::CutQueue(dt));
    retain_after(q, dt);
    loop
        invariant
            book_slots(*books) == book_slots(*old(books)),
            base == states_of(book_slots(*old(books))),
            total == process_in(overlay(base, old(ws)@), old(q)@, *c),
            total == with_prefix3(out@, drain_in(overlay(base, ws@), q@)),
        decreases q@.len(), foreign_count(overlay(base, ws@), q@, q@),
    {
        let ghost s_before = overlay(base, ws@);
        let ghost q_before = q@;
        let ghost out_before = out@;
        match scan_in_exec(books, ws, q) {
            None => {
                return None;
            },
            Some((mut o, e)) => {
                let ghost ov = o@;
                out.append(&mut o);
                match e {
                    None => {
                        return Some(out);
                    },
                    Some(e) => {
                        out.push(TrendAction::CutQueue(e));
                        retain_after(q, e);
                        proof {
                            lemma_drain_progress(s_before, q_before);
                            assert(out@ =~= out_before + (ov + seq![TrendAction::CutQueue(e)]));
                            assert(ov + seq![TrendAction::CutQueue(e)] =~= ov + seq![TrendAction::CutQueue(e)]);
                            lemma_prefix3_assoc(out_before, ov + seq![TrendAction::CutQueue(e)], drain_in(overlay(base, ws@), q@));
                        }
                    },
                }
            },
        }
    }
}

fn simulate_trend(books: &mut DashMap<SeriesKey, TrendBook>, candle: &Candle, qk: SeriesKey) -> (r: Option<Vec<TrendAction>>)
    ensures
        book_slots(*final(books)) == book_slots(*old(books)),
        ({
            let m = book_slots(*old(books));
            let sp = process_in(states_of(m), book_in(m, qk).1.push(*candle), *candle);
            &&& (r is Some) == (sp is Some)
            &&& r is Some ==> r.unwrap()@ == sp.unwrap().2
        }),
{
    let (_st, mut q) = read_book(books, qk);
    q.push(*candle);
    let mut ws: Vec<(SeriesKey, TrendState)> = Vec::new();
    process_in_exec(books, &mut ws, &mut q, candle)
}

/// Whether trend processing is defined on `candle` queued in the series of
/// `symbol` at `timerange`: every step it takes is defined. The books are
/// left as they are.
pub fn trend_process_defined(
    books: &mut DashMap<SeriesKey, TrendBook>,
    candle: &Candle,
    symbol: Symbol,
    timerange: &Timerange,
) -> (b: bool)
    ensures
        book_slots(*final(books)) == book_slots(*old(books)),
        b == ({
            let m = book_slots(*old(books));
            process_in(states_of(m), book_in(m, key_of(symbol, *timerange)).1.push(*candle), *candle) is Some
        }),
{
    let qk = series_key(symbol, timerange);
    simulate_trend(books, candle, qk).is_some()
}

/// Queues a candle in the series of `symbol` at `timerange` and works out
/// what processing it does: the candle is applied to the trend state of its
/// own series; after a change of character that queue is cut at the start of
/// the reversed pull-back and replayed, each queued candle on its own
/// series, until a replay finds no change of character. Returns the actions
/// to perform, in order; the store keeps its trend states, with the candle
/// queued.
pub fn process_trend(books: &mut DashMap<SeriesKey, TrendBook>, candle: &Candle, symbol: Symbol, timerange: &Timerange) -> (out:
    Vec<TrendAction>)
    requires
        ({
            let m = book_slots(*old(books));
            process_in(states_of(m), book_in(m, key_of(symbol, *timerange)).1.push(*candle), *candle) is Some
        }),
    ensures
        ({
            let m = book_slots(*old(books));
            let qk = key_of(symbol, *timerange);
            &&& book_slots(*final(books)) == m.insert(qk, (book_in(m, qk).0, book_in(m, qk).1.push(*candle)))
            &&& out@ == process_in(states_of(m), book_in(m, qk).1.push(*candle), *candle).unwrap().2
        }),
{
    let qk = series_key(symbol, timerange);
    let out = match simulate_trend(books, candle, qk) {
        Some(o) => o,
        None => Vec::new(),
    };
    let mut book = match take_book(books, qk) {
        Some(b) => b,
        None => TrendBook { state: TrendState { trend: None, subtrend: None }, queue: Vec::new() },
    };
    book.queue.push(*candle);
    put_book(books, qk, book);
    proof {
        let m = book_slots(*old(books));
        assert(book_slots(*final(books)) =~= m.insert(qk, (book_in(m, qk).0, book_in(m, qk).1.push(*candle))));
    }
    out
}

/// The trend states and the queue after the actions `acts` are performed in
/// order from the states `ss` and the queue `q`.
pub open spec fn run_actions(ss: Map<SeriesKey, TrendState>, q: Seq<Candle>, acts: Seq<TrendAction>) -> (
    Map<SeriesKey, TrendState>,
    Seq<Candle>,
)
    decreases acts.len(),
{
    if acts.len() == 0 {
        (ss, q)
    } else {
        let (s1, q1) = match acts[0] {
            TrendAction::Publish(_) => (ss, q),
            TrendAction::SetState(k, n) => (ss.insert(k, n), q),
            TrendAction::CutQueue(d) => (ss, after(q, d)),
        };
        run_actions(s1, q1, acts.drop_first())
    }
}

proof fn lemma_run_concat(ss: Map<SeriesKey, TrendState>, q: Seq<Candle>, a: Seq<TrendAction>, b: Seq<TrendAction>)
    ensures
        run_actions(ss, q, a + b) == run_actions(run_actions(ss, q, a).0, run_actions(ss, q, a).1, b),
    decreases a.len(),
{
    if a.len() == 0 {
        assert(a + b =~= b);
    } else {
        assert((a + b).drop_first() =~= a.drop_first() + b);
        assert((a + b)[0] == a[0]);
        let (s1, q1) = match a[0] {
            TrendAction::Publish(_) => (ss, q),
            TrendAction::SetState(k, n) => (ss.insert(k, n), q),
            TrendAction::CutQueue(d) => (ss, after(q, d)),
        };
        lemma_run_concat(s1, q1, a.drop_first(), b);
    }
}

proof fn lemma_run_publishes(ss: Map<SeriesKey, TrendState>, q: Seq<Candle>, a: Seq<TrendAction>)
    requires
        forall|i: int| 0 <= i < a.len() ==> #[trigger] a[i] is Publish,
    ensures
        run_actions(ss, q, a) == (ss, q),
    decreases a.len(),
{
    if a.len() > 0 {
        assert(a[0] is Publish);
        lemma_run_publishes(ss, q, a.drop_first());
    }
}

/// What a candle publishes before it touches the trend state.
spec fn step_publishes(st: TrendState, c: Candle) -> Seq<TrendAction> {
    match (st.trend, st.subtrend) {
        (Some(t), Some(s)) => if c.direction == t.direction {
            if s.direction == Direction::Bullish {
                if c.close < s.low {
                    named_break(c, s, s.low, "Bearish")
                } else {
                    seq![]
                }
            } else if c.close > s.high {
                named_break(c, s, s.high, "Bullish")
            } else {
                seq![]
            }
        } else if s.direction == Direction::Bullish {
            if c.close > t.high {
                named_reversal(c, s, s.last_candle.high, s.last_relative_low, t.relative_high->0, "Bullish")
            } else {
                seq![]
            }
        } else if s.direction == Direction::Bearish {
            if c.close < t.low {
                named_reversal(c, s, s.last_candle.high, s.last_candle.low, t.relative_low->0, "Bearish")
            } else {
                seq![]
            }
        } else {
            seq![]
        },
        _ => seq![],
    }
}

proof fn lemma_run_step(ss: Map<SeriesKey, TrendState>, q: Seq<Candle>, c: Candle)
    requires
        step_in(ss, c) is Some,
    ensures
        run_actions(ss, q, step_in(ss, c).unwrap().1) == (step_in(ss, c).unwrap().0, q),
{
    reveal_with_fuel(run_actions, 5);
    let k = series_of(c);
    let st = state_at(ss, k);
    if st.trend is Some {
        let acts = named_step(st, c).1;
        let pre = step_publishes(st, c);
        let tail = acts.subrange(pre.len() as int, acts.len() as int);
        assert(acts =~= pre + tail);
        assert(forall|i: int| 0 <= i < pre.len() ==> #[trigger] pre[i] is Publish);
        lemma_run_concat(ss, q, pre, tail);
        lemma_run_publishes(ss, q, pre);
        match tail[0] {
            TrendAction::SetState(k1, m1) => {
                assert(ss.insert(k1, m1).insert(k1, no_trend()) =~= ss.insert(k1, no_trend()));
            },
            _ => {},
        }
    }
}

proof fn lemma_run_scan(ss: Map<SeriesKey, TrendState>, q: Seq<Candle>, r: Seq<Candle>)
    requires
        scan_in(ss, r) is Some,
    ensures
        run_actions(ss, q, scan_in(ss, r).unwrap().1) == (scan_in(ss, r).unwrap().0, q),
    decreases r.len(),
{
    if r.len() > 0 {
        let (s1, o1, d1) = step_in(ss, r[0]).unwrap();
        lemma_run_step(ss, q, r[0]);
        if d1 is None {
            let (s2, o2, d2) = scan_in(s1, r.drop_first()).unwrap();
            lemma_run_concat(ss, q, o1, o2);
            lemma_run_scan(s1, q, r.drop_first());
        }
    }
}

proof fn lemma_run_drain(ss: Map<SeriesKey, TrendState>, q: Seq<Candle>)
    requires
        drain_in(ss, q) is Some,
    ensures
        run_actions(ss, q, drain_in(ss, q).unwrap().2) == (drain_in(ss, q).unwrap().0, drain_in(ss, q).unwrap().1),
    decreases q.len(), foreign_count(ss, q, q),
{
    let (s1, o1, d1) = scan_in(ss, q).unwrap();
    lemma_run_scan(ss, q, q);
    if d1 is Some {
        let d = d1->0;
        lemma_drain_progress(ss, q);
        let (s2, q2, o2) = drain_in(s1, after(q, d)).unwrap();
        lemma_run_drain(s1, after(q, d));
        reveal_with_fuel(run_actions, 2);
        lemma_run_concat(ss, q, o1, seq![TrendAction::CutQueue(d)]);
        lemma_run_concat(ss, q, o1 + seq![TrendAction::CutQueue(d)], o2);
    }
}

/// Performing, in order, every action that processing a candle asks for
/// brings the trend states and the queue to what processing the candle
/// computes.
pub proof fn lemma_actions_reach_process(ss: Map<SeriesKey, TrendState>, q: Seq<Candle>, c: Candle)
    requires
        process_in(ss, q, c) is Some,
    ensures
        run_actions(ss, q, process_in(ss, q, c).unwrap().2) == (process_in(ss, q, c).unwrap().0, process_in(ss, q, c).unwrap().1),
{
    let (s1, o1, d1) = step_in(ss, c).unwrap();
    lemma_run_step(ss, q, c);
    if d1 is Some {
        let d = d1->0;
        let (s2, q2, o2) = drain_in(s1, after(q, d)).unwrap();
        lemma_run_drain(s1, after(q, d));
        reveal_with_fuel(run_actions, 2);
        lemma_run_concat(ss, q, o1, seq![TrendAction::CutQueue(d)]);
        lemma_run_concat(ss, q, o1 + seq![TrendAction::CutQueue(d)], o2);
    }
}

/// The shape of a trend state: a pull-back exists only against an existing
/// trend, a trend is never sideways, and it carries its relative extremes.
pub open spec fn named_state_shape(st: TrendState) -> bool {
    &&& named_state_ok(st)
    &&& st.subtrend is Some ==> st.trend is Some && st.subtrend->0.direction != st.trend->0.direction
    &&& st.trend is Some ==> st.trend->0.direction != Direction::Doji
}

/// Every series' trend state has the shape.
pub open spec fn all_shaped(ss: Map<SeriesKey, TrendState>) -> bool {
    forall|k: SeriesKey| #[trigger] named_state_shape(state_at(ss, k))
}

/// Applying a candle keeps the shape of the trend state.
pub proof fn lemma_named_step_keeps_shape(st: TrendState, c: Candle)
    requires
        named_state_shape(st),
    ensures
        named_state_shape(named_step(st, c).0),
{
}

proof fn lemma_step_in_keeps_shape(ss: Map<SeriesKey, TrendState>, c: Candle)
    requires
        all_shaped(ss),
        step_in(ss, c) is Some,
    ensures
        all_shaped(step_in(ss, c).unwrap().0),
{
    let k = series_of(c);
    assert(named_state_shape(state_at(ss, k)));
    lemma_named_step_keeps_shape(state_at(ss, k), c);
    let s1 = step_in(ss, c).unwrap().0;
    assert forall|j: SeriesKey| #[trigger] named_state_shape(state_at(s1, j)) by {
        assert(named_state_shape(state_at(ss, j)));
    }
}

proof fn lemma_scan_in_keeps_shape(ss: Map<SeriesKey, TrendState>, r: Seq<Candle>)
    requires
        all_shaped(ss),
        scan_in(ss, r) is Some,
    ensures
        all_shaped(scan_in(ss, r).unwrap().0),
    decreases r.len(),
{
    if r.len() > 0 {
        lemma_step_in_keeps_shape(ss, r[0]);
        let (s1, o1, d1) = step_in(ss, r[0]).unwrap();
        if d1 is None {
            lemma_scan_in_keeps_shape(s1, r.drop_first());
        }
    }
}

proof fn lemma_drain_in_keeps_shape(ss: Map<SeriesKey, TrendState>, q: Seq<Candle>)
    requires
        all_shaped(ss),
        drain_in(ss, q) is Some,
    ensures
        all_shaped(drain_in(ss, q).unwrap().0),
    decreases q.len(), foreign_count(ss, q, q),
{
    lemma_scan_in_keeps_shape(ss, q);
    let (s1, o1, d1) = scan_in(ss, q).unwrap();
    if d1 is Some {
        lemma_drain_progress(ss, q);
        lemma_drain_in_keeps_shape(s1, after(q, d1->0));
    }
}

/// Processing a candle, replays included, keeps the shape of every series'
/// trend state.
pub proof fn lemma_named_process_keeps_shape(ss: Map<SeriesKey, TrendState>, q: Seq<Candle>, c: Candle)
    requires
        all_shaped(ss),
        process_in(ss, q, c) is Some,
    ensures
        all_shaped(process_in(ss, q, c).unwrap().0),
{
    lemma_step_in_keeps_shape(ss, c);
    let (s1, o1, d1) = step_in(ss, c).unwrap();
    if d1 is Some {
        lemma_drain_in_keeps_shape(s1, after(q, d1->0));
    }
}

/// A candle going the trend's way with no pull-back extends the trend to
/// the candle's instant and widens it to cover the candle: the high becomes
/// the higher of the two highs, dated by the candle when the candle's high
/// is above the trend's, and the low the lower of the two lows, dated
/// likewise. The direction, start and relative extremes stay, no pull-back
/// appears, nothing is published, and the new state is set.
pub proof fn lemma_named_trend_widens(st: TrendState, c: Candle)
    requires
        st.trend is Some,
        st.subtrend is None,
        c.direction == st.trend->0.direction,
    ensures
        ({
            let t = st.trend->0;
            let (n, acts, d) = named_step(st, c);
            let t2 = n.trend->0;
            &&& d is None
            &&& n.trend is Some
            &&& n.subtrend is None
            &&& t2.high == if c.high > t.high { c.high } else { t.high }
            &&& t2.low == if c.low < t.low { c.low } else { t.low }
            &&& t2.high >= c.high && t2.high >= t.high
            &&& t2.low <= c.low && t2.low <= t.low
            &&& t2.high_datetime == if c.high > t.high { Some(c.timestamp) } else { t.high_datetime }
            &&& t2.low_datetime == if c.low < t.low { Some(c.timestamp) } else { t.low_datetime }
            &&& t2.end_time == c.timestamp
            &&& t2.start_time == t.start_time
            &&& t2.direction == t.direction
            &&& t2.relative_high == t.relative_high
            &&& t2.relative_low == t.relative_low
            &&& acts == seq![TrendAction::SetState(key_of(c.symbol, c.timerange), n)]
        }),
{
}

/// A candle going the trend's way with a pull-back: closing beyond the
/// pull-back's far extreme (below its low for a bullish pull-back, above its
/// high otherwise) breaks it: the pull-back goes, the trend takes the
/// pull-back's high (bullish pull-back) or low (otherwise) as its own, and
/// the break is published before the state is set. Otherwise the trend's
/// extremes stay and the pull-back stretches: a bullish one to the higher of
/// its high and the candle's high, any other to the lower of its low and
/// the candle's low, its start and direction kept.
pub proof fn lemma_named_pull_back_step(st: TrendState, c: Candle)
    requires
        st.trend is Some,
        st.subtrend is Some,
        c.direction == st.trend->0.direction,
    ensures
        ({
            let t = st.trend->0;
            let s = st.subtrend->0;
            let (n, acts, d) = named_step(st, c);
            let t2 = n.trend->0;
            let breaks = if s.direction == Direction::Bullish { c.close < s.low } else { c.close > s.high };
            &&& d is None
            &&& n.trend is Some
            &&& t2.end_time == c.timestamp
            &&& t2.direction == t.direction
            &&& t2.start_time == t.start_time
            &&& acts.last() == TrendAction::SetState(key_of(c.symbol, c.timerange), n)
            &&& breaks ==> {
                &&& n.subtrend is None
                &&& acts.len() == 7
                &&& s.direction == Direction::Bullish ==> t2.high == s.high && t2.low == t.low
                &&& s.direction != Direction::Bullish ==> t2.low == s.low && t2.high == t.high
            }
            &&& !breaks ==> {
                let s2 = n.subtrend->0;
                &&& n.subtrend is Some
                &&& acts.len() == 1
                &&& t2.high == t.high && t2.low == t.low
                &&& s2.start_time == s.start_time && s2.direction == s.direction
                &&& s.direction == Direction::Bullish ==> s2.high == (if c.high > s.high { c.high } else { s.high })
                    && s2.low == s.low
                &&& s.direction != Direction::Bullish ==> s2.low == (if c.low < s.low { c.low } else { s.low })
                    && s2.high == s.high
            }
        }),
{
}

/// A candle against the trend: with no pull-back it opens one spanning the
/// candle, from the candle's instant, and the trend stays as it is. Against
/// a bullish pull-back, closing above the trend's high is a change of
/// character; against a bearish one, closing below the trend's low: the
/// trend and pull-back go, and the pull-back's start is reported. Otherwise
/// the pull-back stays and the trend only extends to the candle's instant
/// (a sideways pull-back leaves the trend as it is).
pub proof fn lemma_named_against_trend(st: TrendState, c: Candle)
    requires
        st.trend is Some,
        c.direction != st.trend->0.direction,
    ensures
        ({
            let t = st.trend->0;
            let (n, acts, d) = named_step(st, c);
            match st.subtrend {
                None => {
                    &&& d is None
                    &&& n.trend == Some(t)
                    &&& n.subtrend is Some
                    &&& n.subtrend->0.start_time == c.timestamp
                    &&& n.subtrend->0.high == c.high
                    &&& n.subtrend->0.low == c.low
                    &&& n.subtrend->0.direction == c.direction
                    &&& n.subtrend->0.last_candle == c
                },
                Some(s) => {
                    let reverses = (s.direction == Direction::Bullish && c.close > t.high) || (s.direction
                        == Direction::Bearish && c.close < t.low);
                    &&& reverses ==> d == Some(s.start_time) && n.trend is None && n.subtrend is None
                    &&& !reverses ==> {
                        &&& d is None
                        &&& n.subtrend == Some(s)
                        &&& n.trend is Some
                        &&& n.trend->0.high == t.high && n.trend->0.low == t.low
                        &&& n.trend->0.end_time == if s.direction == Direction::Bullish || s.direction
                            == Direction::Bearish { c.timestamp } else { t.end_time }
                    }
                },
            }
        }),
{
}

/// With no trend, a sideways candle changes nothing; any other candle opens
/// a trend its way spanning the candle, from and to the candle's instant,
/// with the candle's high and low as its relative extremes.
pub proof fn lemma_named_trend_opens(st: TrendState, c: Candle)
    requires
        st.trend is None,
    ensures
        ({
            let (n, acts, d) = named_step(st, c);
            &&& d is None
            &&& c.direction == Direction::Doji ==> n == st && acts.len() == 0
            &&& c.direction != Direction::Doji ==> {
                let t = n.trend->0;
                &&& n.trend is Some
                &&& n.subtrend == st.subtrend
                &&& t.direction == c.direction
                &&& t.high == c.high && t.low == c.low
                &&& t.start_time == c.timestamp && t.end_time == c.timestamp
                &&& t.relative_high == Some(c.high) && t.relative_low == Some(c.low)
                &&& acts == seq![TrendAction::SetState(key_of(c.symbol, c.timerange), n)]
            }
        }),
{
}

} // verus!

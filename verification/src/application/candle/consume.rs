use vstd::prelude::*;

use dashmap::DashMap;

use crate::application::structures::fvg::{fair_value_gap, gap_dispatches, last_three, process_fvg, window_in};
use crate::application::structures::session::{
    higher, lower, max_price, min_price, saturating_sum,
};
use crate::application::structures::trend::{book_in, process_trend, trend_returns, trend_round, trend_would_return};
use crate::domain::entities::candle::{aligned_start, alignable, direction_of, Candle};
use crate::domain::entities::data::Dispatch;
use crate::domain::entities::timerange::Timerange;
use crate::domain::entities::trend::TrendBook;
use crate::domain::series::{
    book_slots, candle_slots, key_of, put_candle, series_key, take_candle, window_slots, SeriesKey,
};

verus! {

/// The candle of timerange `t` that `c` opens.
pub open spec fn opened_candle(c: Candle, t: Timerange) -> Candle {
    Candle {
        symbol: c.symbol,
        timerange: t,
        timestamp: aligned_start(c.timestamp as int, t.duration_ms as int) as i64,
        end_timestamp: (aligned_start(c.timestamp as int, t.duration_ms as int) + t.duration_ms) as i64,
        open: c.open,
        high: c.high,
        low: c.low,
        close: c.close,
        volume: c.volume,
        direction: direction_of(c.open as int, c.close as int),
    }
}

/// The candle `last` extended by `c`, which falls in its period.
pub open spec fn extended_candle(last: Candle, c: Candle) -> Candle {
    Candle {
        high: higher(last.high, c.high),
        low: lower(last.low, c.low),
        close: c.close,
        volume: saturating_sum(last.volume, c.volume),
        ..last
    }
}

/// `c` starts at or after the end of the period of `last`, which it closes.
pub open spec fn closes(last: Candle, c: Candle) -> bool {
    c.timestamp >= last.end_timestamp
}

/// A candle can be aggregated at timerange `t`: when it opens a new candle,
/// that candle's period can be represented, and when it closes the stored
/// candle, trend processing is defined on the closed candle.
pub open spec fn aggregation_defined(
    candles: Map<SeriesKey, Candle>,
    books: Map<SeriesKey, (crate::domain::entities::trend::TrendState, Seq<Candle>)>,
    c: Candle,
    t: Timerange,
) -> bool {
    let k = key_of(c.symbol, t);
    if candles.contains_key(k) {
        let last = candles[k];
        closes(last, c) ==> {
            &&& alignable(c.timestamp as int, t.duration_ms as int)
            &&& ({
                let (st, q) = book_in(books, key_of(last.symbol, last.timerange));
                trend_returns(st, q.push(last), last)
            })
        }
    } else {
        alignable(c.timestamp as int, t.duration_ms as int)
    }
}

/// Aggregates a candle into the candle of timerange `timerange` in progress
/// for its symbol. A candle that starts at or after the end of the stored
/// candle closes it: the closed candle goes through trend detection, then
/// through fair value gap detection, and the new candle opens the next
/// period. A candle inside the stored candle's period extends it. With no
/// stored candle, the candle opens one. Returns what is stored and sent.
pub fn aggregate_candle(
    candles: &mut DashMap<SeriesKey, Candle>,
    books: &mut DashMap<SeriesKey, TrendBook>,
    windows: &mut DashMap<SeriesKey, Vec<Candle>>,
    candle: &Candle,
    timerange: &Timerange,
) -> (out: Vec<Dispatch>)
    requires
        aggregation_defined(candle_slots(*old(candles)), book_slots(*old(books)), *candle, *timerange),
    ensures
        ({
            let k = key_of(candle.symbol, *timerange);
            let cs = candle_slots(*old(candles));
            if cs.contains_key(k) && closes(cs[k], *candle) {
                let last = cs[k];
                let lk = key_of(last.symbol, last.timerange);
                let (st, q) = book_in(book_slots(*old(books)), lk);
                let w = last_three(window_in(window_slots(*old(windows)), lk).push(last));
                &&& candle_slots(*final(candles)) == cs.insert(k, opened_candle(*candle, *timerange))
                &&& window_slots(*final(windows)) == window_slots(*old(windows)).insert(lk, w)
                &&& ({
                    let (st2, q2, o) = trend_round(st, q.push(last), last);
                    &&& book_slots(*final(books)) == book_slots(*old(books)).insert(lk, (st2, q2))
                    &&& out@ == o + gap_dispatches(fair_value_gap(w, last))
                })
            } else if cs.contains_key(k) {
                &&& candle_slots(*final(candles)) == cs.insert(k, extended_candle(cs[k], *candle))
                &&& book_slots(*final(books)) == book_slots(*old(books))
                &&& window_slots(*final(windows)) == window_slots(*old(windows))
                &&& out@ == Seq::<Dispatch>::empty()
            } else {
                &&& candle_slots(*final(candles)) == cs.insert(k, opened_candle(*candle, *timerange))
                &&& book_slots(*final(books)) == book_slots(*old(books))
                &&& window_slots(*final(windows)) == window_slots(*old(windows))
                &&& out@ == Seq::<Dispatch>::empty()
            }
        }),
{
    let key = series_key(candle.symbol, timerange);
    let mut out: Vec<Dispatch> = Vec::new();
    match take_candle(candles, key) {
        Some(last) => {
            if candle.timestamp >= last.end_timestamp {
                let mut trend_out = process_trend(books, &last);
                let mut gap_out = process_fvg(windows, &last);
                out.append(&mut trend_out);
                out.append(&mut gap_out);
                let next = Candle::new(
                    candle.symbol,
                    *timerange,
                    candle.timestamp,
                    candle.open,
                    candle.high,
                    candle.low,
                    candle.close,
                    candle.volume,
                );
                put_candle(candles, key, next);
            } else {
                let mut extended = last;
                extended.high = max_price(extended.high, candle.high);
                extended.low = min_price(extended.low, candle.low);
                extended.close = candle.close;
                extended.volume = extended.volume.saturating_add(candle.volume);
                put_candle(candles, key, extended);
            }
        },
        None => {
            let next = Candle::new(
                candle.symbol,
                *timerange,
                candle.timestamp,
                candle.open,
                candle.high,
                candle.low,
                candle.close,
                candle.volume,
            );
            put_candle(candles, key, next);
        },
    }
    proof {
        let cs = candle_slots(*old(candles));
        if cs.contains_key(key) {
            assert(candle_slots(*final(candles)) =~= cs.insert(key, candle_slots(*final(candles))[key]));
        } else {
            assert(candle_slots(*final(candles)) =~= cs.insert(key, candle_slots(*final(candles))[key]));
        }
    }
    out
}


/// Whether trend processing is defined on the candle that `candle` would close
/// at timerange `timerange` (true when it closes none); the stores are left
/// as they are.
pub fn aggregation_would_return(
    candles: &mut DashMap<SeriesKey, Candle>,
    books: &mut DashMap<SeriesKey, TrendBook>,
    candle: &Candle,
    timerange: &Timerange,
) -> (b: bool)
    ensures
        candle_slots(*final(candles)) == candle_slots(*old(candles)),
        book_slots(*final(books)) == book_slots(*old(books)),
        b == ({
            let k = key_of(candle.symbol, *timerange);
            let cs = candle_slots(*old(candles));
            cs.contains_key(k) && closes(cs[k], *candle) ==> {
                let last = cs[k];
                let (st, q) = book_in(book_slots(*old(books)), key_of(last.symbol, last.timerange));
                trend_returns(st, q.push(last), last)
            }
        }),
{
    let key = series_key(candle.symbol, timerange);
    match take_candle(candles, key) {
        Some(last) => {
            let b = if candle.timestamp >= last.end_timestamp {
                trend_would_return(books, &last)
            } else {
                true
            };
            put_candle(candles, key, last);
            proof {
                assert(candle_slots(*final(candles)) =~= candle_slots(*old(candles)));
            }
            b
        },
        None => true,
    }
}

/// A candle extended by another keeps its period, its open and its
/// direction; its high and low cover both candles and it closes at the later
/// candle's close.
pub proof fn lemma_extended_candle_covers(last: Candle, c: Candle)
    ensures
        extended_candle(last, c).timestamp == last.timestamp,
        extended_candle(last, c).end_timestamp == last.end_timestamp,
        extended_candle(last, c).open == last.open,
        extended_candle(last, c).direction == last.direction,
        extended_candle(last, c).symbol == last.symbol,
        extended_candle(last, c).timerange == last.timerange,
        extended_candle(last, c).high == if c.high > last.high { c.high } else { last.high },
        extended_candle(last, c).low == if c.low < last.low { c.low } else { last.low },
        extended_candle(last, c).high >= last.high && extended_candle(last, c).high >= c.high,
        extended_candle(last, c).low <= last.low && extended_candle(last, c).low <= c.low,
        extended_candle(last, c).close == c.close,
        extended_candle(last, c).volume == if last.volume + c.volume > u64::MAX { u64::MAX as int } else { last.volume + c.volume },
{
}

/// A candle at or after the epoch opens the period of its timerange that
/// holds it.
pub proof fn lemma_opened_candle_holds(c: Candle, t: Timerange)
    requires
        t.duration_ms > 0,
        c.timestamp >= 0,
        alignable(c.timestamp as int, t.duration_ms as int),
    ensures
        opened_candle(c, t).timestamp <= c.timestamp < opened_candle(c, t).end_timestamp,
        opened_candle(c, t).timestamp % t.duration_ms == 0,
{
    crate::domain::entities::candle::lemma_alignment_brackets(c.timestamp as int, t.duration_ms as int);
}

} // verus!

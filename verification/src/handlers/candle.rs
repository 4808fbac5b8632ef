use vstd::prelude::*;

use dashmap::DashMap;

use crate::application::structures::session::{higher, lower, max_price, min_price, saturating_sum};
use crate::application::structures::trend::book_in;
use crate::domain::entities::candle::{aligned_start, Candle};
use crate::domain::entities::symbol::Symbol;
use crate::domain::entities::timerange::Timerange;
use crate::domain::entities::trend::TrendBook;
use crate::domain::series::{
    book_slots, candle_slots, key_of, put_candle, series_key, take_candle, window_slots, SeriesKey,
};
use crate::handlers::structures::{gap_update, processfairvaluegap, Published, Report};
use crate::handlers::trends::{process_in, process_trend, states_of, TrendAction};
use crate::utils::time::valid_timestamp;

verus! {

/// The candle `c` moved to timerange `t`: its start is aligned on the
/// timerange; its other fields are kept.
pub open spec fn retimed(c: Candle, t: Timerange) -> Candle {
    Candle { timerange: t, timestamp: aligned_start(c.timestamp as int, t.duration_ms as int) as i64, ..c }
}

/// The stored candle `last` extended by `c`.
pub open spec fn merged(last: Candle, c: Candle) -> Candle {
    Candle {
        high: higher(last.high, c.high),
        low: lower(last.low, c.low),
        close: c.close,
        volume: saturating_sum(last.volume, c.volume),
        ..last
    }
}

/// `c` starts at or after the end of the period of length `d` that `last` starts.
pub open spec fn period_over(last: Candle, c: Candle, d: i64) -> bool {
    last.timestamp + d <= c.timestamp
}

/// A candle can be aggregated into the series `symbol` at timerange `t`:
/// the end of the stored candle's period and the start of a new period are
/// valid instants, and trend processing is defined on the closed candle.
pub open spec fn named_aggregation_defined(
    cs: Map<SeriesKey, Candle>,
    books: Map<SeriesKey, (crate::domain::entities::trend::TrendState, Seq<Candle>)>,
    c: Candle,
    symbol: Symbol,
    t: Timerange,
) -> bool {
    let k = key_of(symbol, t);
    if cs.contains_key(k) {
        let last = cs[k];
        &&& valid_timestamp(last.timestamp + t.duration_ms)
        &&& period_over(last, c, t.duration_ms) ==> {
            &&& t.duration_ms != 0
            &&& valid_timestamp(aligned_start(c.timestamp as int, t.duration_ms as int))
            &&& process_in(states_of(books), book_in(books, k).1.push(last), last) is Some
        }
    } else {
        t.duration_ms != 0 && valid_timestamp(aligned_start(c.timestamp as int, t.duration_ms as int))
    }
}

/// What aggregating a candle asks for, in order: what is published as a
/// period closes (the closed candle, then its fair value gap), the trend
/// actions of the closed candle, and the candle then in progress, sent last.
pub struct Aggregation {
    pub closing: Vec<Report>,
    pub trend: Vec<TrendAction>,
    pub opening: Report,
}

/// Aggregates a candle into the candle of the series `symbol` at timerange
/// `timerange`. When the candle starts at or after the end of the stored
/// candle's period, the stored candle is stored and sent, goes through fair
/// value gap detection (whose failure is dropped) and trend detection, and
/// the candle, moved to the timerange, replaces it; otherwise the candle
/// extends the stored one. With no stored candle, the candle moved to the
/// timerange is stored. The candle then in progress is sent.
pub fn aggregate_candle(
    candles: &mut DashMap<SeriesKey, Candle>,
    windows: &mut DashMap<SeriesKey, Vec<Candle>>,
    books: &mut DashMap<SeriesKey, TrendBook>,
    candle: &Candle,
    symbol: Symbol,
    timerange: &Timerange,
) -> (out: Aggregation)
    requires
        named_aggregation_defined(
            candle_slots(*old(candles)),
            book_slots(*old(books)),
            *candle,
            symbol,
            *timerange,
        ),
    ensures
        ({
            let k = key_of(symbol, *timerange);
            let cs = candle_slots(*old(candles));
            if cs.contains_key(k) && period_over(cs[k], *candle, timerange.duration_ms) {
                let last = cs[k];
                let next = retimed(*candle, *timerange);
                let (ws2, gap) = gap_update(window_slots(*old(windows)), last, symbol, *timerange);
                let (st, q) = book_in(book_slots(*old(books)), k);
                let gap_reports = match gap {
                    Ok(r) => r,
                    Err(_) => seq![],
                };
                &&& candle_slots(*final(candles)) == cs.insert(k, next)
                &&& window_slots(*final(windows)) == ws2
                &&& book_slots(*final(books)) == book_slots(*old(books)).insert(k, (st, q.push(last)))
                &&& out.closing@ == seq![Report::Store(Published::Candle(last)), Report::Send(Published::Candle(last))]
                    + gap_reports
                &&& out.trend@ == process_in(states_of(book_slots(*old(books))), q.push(last), last).unwrap().2
                &&& out.opening == Report::Send(Published::Candle(next))
            } else {
                let next = if cs.contains_key(k) {
                    merged(cs[k], *candle)
                } else {
                    retimed(*candle, *timerange)
                };
                &&& candle_slots(*final(candles)) == cs.insert(k, next)
                &&& window_slots(*final(windows)) == window_slots(*old(windows))
                &&& book_slots(*final(books)) == book_slots(*old(books))
                &&& out.closing@ == Seq::<Report>::empty()
                &&& out.trend@ == Seq::<TrendAction>::empty()
                &&& out.opening == Report::Send(Published::Candle(next))
            }
        }),
{
    let key = series_key(symbol, timerange);
    let mut out: Vec<Report> = Vec::new();
    let mut trend: Vec<TrendAction> = Vec::new();
    let next = match take_candle(candles, key) {
        Some(last) => {
            if last.timestamp + timerange.duration_ms <= candle.timestamp {
                out.push(Report::Store(Published::Candle(last)));
                out.push(Report::Send(Published::Candle(last)));
                match processfairvaluegap(windows, &last, symbol, timerange) {
                    Ok(mut reports) => out.append(&mut reports),
                    Err(_) => {},
                }
                trend = process_trend(books, &last, symbol, timerange);
                retime(candle, timerange)
            } else {
                let mut m = last;
                m.high = max_price(m.high, candle.high);
                m.low = min_price(m.low, candle.low);
                m.close = candle.close;
                m.volume = m.volume.saturating_add(candle.volume);
                m
            }
        },
        None => retime(candle, timerange),
    };
    put_candle(candles, key, next);
    proof {
        assert(candle_slots(*final(candles)) =~= candle_slots(*old(candles)).insert(key, next));
    }
    Aggregation { closing: out, trend, opening: Report::Send(Published::Candle(next)) }
}

fn retime(candle: &Candle, timerange: &Timerange) -> (c: Candle)
    requires
        timerange.duration_ms != 0,
        valid_timestamp(aligned_start(candle.timestamp as int, timerange.duration_ms as int)),
    ensures
        c == retimed(*candle, *timerange),
{
    let mut c = *candle;
    c.timerange = *timerange;
    proof {
        crate::domain::entities::candle::lemma_aligned_fits(candle.timestamp as int, timerange.duration_ms as int);
        if timerange.duration_ms == -1 {
            crate::domain::entities::candle::lemma_minus_one_keeps(candle.timestamp as int, -1);
        }
    }
    let q = crate::domain::entities::candle::quotient_toward_zero(candle.timestamp, timerange.duration_ms);
    c.timestamp = q * timerange.duration_ms;
    c
}

/// A candle inside the stored candle's period extends it: the stored
/// candle keeps its series, start, open and direction; its high becomes the
/// higher of the two highs, its low the lower of the two lows, it closes at
/// the new candle's close, and the volumes add up (saturating).
pub proof fn lemma_merged_keeps_open(last: Candle, c: Candle)
    ensures
        merged(last, c).open == last.open,
        merged(last, c).timestamp == last.timestamp,
        merged(last, c).end_timestamp == last.end_timestamp,
        merged(last, c).direction == last.direction,
        merged(last, c).symbol == last.symbol,
        merged(last, c).timerange == last.timerange,
        merged(last, c).high == if c.high > last.high { c.high } else { last.high },
        merged(last, c).low == if c.low < last.low { c.low } else { last.low },
        merged(last, c).close == c.close,
        merged(last, c).volume == if last.volume + c.volume > u64::MAX { u64::MAX as int } else { last.volume + c.volume },
{
}

} // verus!

use vstd::prelude::*;

use dashmap::DashMap;

use crate::domain::entities::candle::Candle;
use crate::domain::entities::direction::{direction_text, Direction};
use crate::domain::entities::session::Session;
use crate::domain::entities::symbol::Symbol;
use crate::domain::entities::timerange::Timerange;
use crate::domain::entities::trend::Trend;
use crate::domain::series::{key_of, put_window, series_key, take_window, window_slots, SeriesKey};

verus! {

/// A structure marked at a single price, named in full.
#[derive(Clone, Copy, Debug)]
pub struct OneDStructures {
    pub symbol: Symbol,
    pub structure: &'static str,
    pub timerange: Timerange,
    pub timestamp: i64,
    pub price: i64,
    pub direction: &'static str,
}

/// A structure spanning a price band, named in full.
#[derive(Clone, Copy, Debug)]
pub struct TwoDStructures {
    pub symbol: Symbol,
    pub structure: &'static str,
    pub timerange: Timerange,
    pub timestamp: i64,
    pub high: i64,
    pub low: i64,
    pub direction: &'static str,
}

/// Something the analysis publishes.
#[derive(Clone, Copy, Debug)]
pub enum Published {
    Candle(Candle),
    OneD(OneDStructures),
    TwoD(TwoDStructures),
    Trend(Trend),
    Session(Session),
}

/// What is done with a published item: sent to the live feed, or stored in
/// the database buffer of its symbol.
#[derive(Clone, Copy, Debug)]
pub enum Report {
    Send(Published),
    Store(Published),
}

/// The non-sideways candles of `w` all go the same way.
pub open spec fn directions_agree(w: Seq<Candle>) -> bool {
    forall|i: int, j: int|
        0 <= i < w.len() && 0 <= j < w.len() && w[i].direction != Direction::Doji && w[j].direction
            != Direction::Doji ==> #[trigger] w[i].direction == #[trigger] w[j].direction
}

/// Some candle of `w` is not sideways.
pub open spec fn has_trending(w: Seq<Candle>) -> bool {
    exists|i: int| 0 <= i < w.len() && #[trigger] w[i].direction != Direction::Doji
}

/// The way the non-sideways candles of `w` go, when they agree.
pub open spec fn common_direction(w: Seq<Candle>) -> Option<Direction> {
    if has_trending(w) {
        Some(w[choose|i: int| 0 <= i < w.len() && #[trigger] w[i].direction != Direction::Doji].direction)
    } else {
        None
    }
}

/// The band of the fair value gap in a window of three candles whose
/// non-sideways candles go the way `d`: for a bullish window, between the
/// first candle's high and the third candle's low when the first high is
/// below the third low; for a bearish window, between the third candle's
/// high and the first candle's low when the first low is above the third
/// high. As (high, low).
pub open spec fn gap_band(w: Seq<Candle>, d: Option<Direction>) -> Option<(i64, i64)> {
    match d {
        Some(Direction::Bullish) => if w[0].high < w[2].low {
            Some((w[2].low, w[0].high))
        } else {
            None
        },
        Some(Direction::Bearish) => if w[0].low > w[2].high {
            Some((w[0].low, w[2].high))
        } else {
            None
        },
        _ => None,
    }
}

/// The window kept for a series after `c` is added to `w`: the window grows
/// up to three candles and then slides; a window that would exceed four
/// candles is left as it is with `c` appended.
pub open spec fn next_window(w: Seq<Candle>, c: Candle) -> Seq<Candle> {
    let p = w.push(c);
    if p.len() == 4 {
        p.drop_first()
    } else {
        p
    }
}

/// The outcome of adding `c`, of series `symbol` at `timerange`, to the window
/// `w`: an error when the window overflows, otherwise what is reported.
pub open spec fn gap_reports(w: Seq<Candle>, c: Candle, symbol: Symbol, timerange: Timerange) -> Result<
    Seq<Report>,
    (),
> {
    let n = next_window(w, c);
    if w.push(c).len() > 4 {
        Err(())
    } else if n.len() < 3 || !directions_agree(n) {
        Ok(seq![])
    } else {
        let d = common_direction(n);
        match gap_band(n, d) {
            Some((high, low)) => {
                let g = Published::TwoD(
                    TwoDStructures {
                        symbol,
                        structure: "Fair Value Gap",
                        timerange,
                        timestamp: c.timestamp,
                        high,
                        low,
                        direction: direction_str(d->0),
                    },
                );
                Ok(seq![Report::Store(g), Report::Send(g)])
            },
            None => Ok(seq![]),
        }
    }
}

/// The lower-case name of a direction, as a static string.
pub open spec fn direction_str(d: Direction) -> &'static str {
    match d {
        Direction::Bullish => "bullish",
        Direction::Bearish => "bearish",
        Direction::Doji => "doji",
    }
}

fn direction_name(d: Direction) -> (s: &'static str)
    ensures
        s == direction_str(d),
        s@ == direction_text(d),
{
    match d {
        Direction::Bullish => "bullish",
        Direction::Bearish => "bearish",
        Direction::Doji => "doji",
    }
}

/// Finds whether the non-sideways candles of a window agree, and the way they go.
fn window_direction(w: &Vec<Candle>) -> (res: Option<Option<Direction>>)
    ensures
        res is Some == directions_agree(w@),
        res is Some ==> res->0 == common_direction(w@),
{
    let mut direction: Option<Direction> = None;
    let n = w.len();
    let mut i: usize = 0;
    while i < n
        invariant
            n == w@.len(),
            i <= n,
            directions_agree(w@.take(i as int)),
            direction == common_direction(w@.take(i as int)),
            has_trending(w@.take(i as int)) ==> direction == Some(
                w@.take(i as int)[choose|j: int| 0 <= j < i && #[trigger] w@.take(i as int)[j].direction != Direction::Doji].direction,
            ),
        decreases n - i,
    {
        let c = w[i];
        let ghost prefix = w@.take(i as int);
        let ghost next = w@.take(i + 1);
        assert(next =~= prefix.push(c));
        match direction {
            Some(d) => {
                assert(has_trending(prefix));
                let ghost j = choose|j: int| 0 <= j < prefix.len() && #[trigger] prefix[j].direction != Direction::Doji;
                assert(prefix[j].direction == d);
                if d != c.direction && c.direction != Direction::Doji {
                    assert(next[j].direction != next[i as int].direction);
                    return None;
                }
                assert forall|a: int, b: int|
                    0 <= a < next.len() && 0 <= b < next.len() && next[a].direction != Direction::Doji
                        && next[b].direction != Direction::Doji implies #[trigger] next[a].direction
                    == #[trigger] next[b].direction by {
                    if a < i {
                        assert(prefix[a].direction == prefix[j].direction);
                    }
                    if b < i {
                        assert(prefix[b].direction == prefix[j].direction);
                    }
                }
                assert(has_trending(next)) by { assert(next[j].direction != Direction::Doji); }
                let ghost k = choose|k: int| 0 <= k < next.len() && #[trigger] next[k].direction != Direction::Doji;
                assert(next[k].direction == next[j].direction);
            },
            None => {
                assert(!has_trending(prefix));
                if c.direction != Direction::Doji {
                    direction = Some(c.direction);
                    assert forall|a: int, b: int|
                        0 <= a < next.len() && 0 <= b < next.len() && next[a].direction != Direction::Doji
                            && next[b].direction != Direction::Doji implies #[trigger] next[a].direction
                        == #[trigger] next[b].direction by {
                        if a < i {
                            assert(prefix[a].direction == Direction::Doji);
                        }
                        if b < i {
                            assert(prefix[b].direction == Direction::Doji);
                        }
                    }
                    assert(has_trending(next)) by { assert(next[i as int].direction != Direction::Doji); }
                    proof {
                        let k = choose|k: int| 0 <= k < next.len() && #[trigger] next[k].direction != Direction::Doji;
                        if k < i {
                            assert(prefix[k].direction == Direction::Doji);
                        }
                    }
                } else {
                    assert(!has_trending(next)) by {
                        assert forall|a: int| 0 <= a < next.len() implies #[trigger] next[a].direction == Direction::Doji by {
                            if a < i {
                                assert(prefix[a].direction == Direction::Doji);
                            }
                        }
                    }
                }
            },
        }
        i = i + 1;
    }
    assert(w@.take(n as int) =~= w@);
    Some(direction)
}

/// What adding `c` to the window of the series `symbol` at `timerange` does
/// to a store of windows, and its outcome. The first candle of a series only
/// starts its window.
pub open spec fn gap_update(ws: Map<SeriesKey, Seq<Candle>>, c: Candle, symbol: Symbol, timerange: Timerange) -> (
    Map<SeriesKey, Seq<Candle>>,
    Result<Seq<Report>, ()>,
) {
    let k = key_of(symbol, timerange);
    if !ws.contains_key(k) {
        (ws.insert(k, seq![c]), Ok(seq![]))
    } else {
        match gap_reports(ws[k], c, symbol, timerange) {
            Err(_) => (ws.insert(k, ws[k].push(c)), Err(())),
            Ok(reports) => (ws.insert(k, next_window(ws[k], c)), Ok(reports)),
        }
    }
}

/// Adds a candle of the series `symbol` at `timerange` to the series'
/// window of its last three candles and reports the fair value gap that the
/// window then shows, stored first and then sent. Fails, leaving the window
/// with the candle appended, when the window would hold more than four
/// candles.
pub fn gap_step(window: &mut Vec<Candle>, candle: &Candle, symbol: Symbol, timerange: &Timerange) -> (res: Result<
    Vec<Report>,
    String,
>)
    ensures
        gap_reports(old(window)@, *candle, symbol, *timerange) is Err ==> final(window)@ == old(window)@.push(*candle)
            && res is Err && res->Err_0@ == "Too many candles in the list"@,
        gap_reports(old(window)@, *candle, symbol, *timerange) is Ok ==> final(window)@ == next_window(old(window)@, *candle)
            && res is Ok && res->Ok_0@ == gap_reports(old(window)@, *candle, symbol, *timerange)->Ok_0,
{
    let mut reports: Vec<Report> = Vec::new();
    window.push(*candle);
    if window.len() > 4 {
        return Err(String::from_str("Too many candles in the list"));
    } else if window.len() == 4 {
        window.remove(0);
        assert(window@ =~= old(window)@.push(*candle).drop_first());
    } else if window.len() < 3 {
        return Ok(reports);
    }
    let direction = match window_direction(window) {
        Some(d) => d,
        None => return Ok(reports),
    };
    let mut band: Option<(i64, i64)> = None;
    match direction {
        Some(Direction::Bullish) => {
            if window[0].high < window[2].low {
                band = Some((window[2].low, window[0].high));
            }
        },
        Some(Direction::Bearish) => {
            if window[0].low > window[2].high {
                band = Some((window[0].low, window[2].high));
            }
        },
        _ => {},
    }
    if let Some((high, low)) = band {
        let d = direction.unwrap();
        let gap = Published::TwoD(
            TwoDStructures {
                symbol,
                structure: "Fair Value Gap",
                timerange: *timerange,
                timestamp: candle.timestamp,
                high,
                low,
                direction: direction_name(d),
            },
        );
        reports.push(Report::Store(gap));
        reports.push(Report::Send(gap));
    }
    Ok(reports)
}

/// Adds a candle to the window of the series `symbol` at `timerange` and
/// reports the fair value gap that the window then shows. The first candle
/// of a series only starts its window.
pub fn processfairvaluegap(
    windows: &mut DashMap<SeriesKey, Vec<Candle>>,
    candle: &Candle,
    symbol: Symbol,
    timerange: &Timerange,
) -> (res: Result<Vec<Report>, String>)
    ensures
        ({
            let (ws2, r) = gap_update(window_slots(*old(windows)), *candle, symbol, *timerange);
            &&& window_slots(*final(windows)) == ws2
            &&& match r {
                Ok(reports) => res is Ok && res->Ok_0@ == reports,
                Err(_) => res is Err && res->Err_0@ == "Too many candles in the list"@,
            }
        }),
{
    let key = series_key(symbol, timerange);
    match take_window(windows, key) {
        Some(mut window) => {
            let res = gap_step(&mut window, candle, symbol, timerange);
            put_window(windows, key, window);
            proof {
                assert(window_slots(*final(windows)) =~= window_slots(*old(windows)).insert(key, window@));
            }
            res
        },
        None => {
            let mut window: Vec<Candle> = Vec::new();
            window.push(*candle);
            put_window(windows, key, window);
            proof {
                assert(window@ =~= seq![*candle]);
                assert(window_slots(*final(windows)) =~= window_slots(*old(windows)).insert(key, window@));
            }
            Ok(Vec::new())
        },
    }
}


/// A window of at most three candles never overflows: adding a candle
/// succeeds and leaves at most three candles, the added one last.
pub proof fn lemma_window_stays_small(w: Seq<Candle>, c: Candle, symbol: Symbol, timerange: Timerange)
    requires
        w.len() <= 3,
    ensures
        gap_reports(w, c, symbol, timerange) is Ok,
        next_window(w, c).len() <= 3,
        next_window(w, c).last() == c,
{
}

/// The window store after adding the candles `cs` in turn to the window of
/// the series `symbol` at `timerange`.
pub open spec fn windows_after(ws: Map<SeriesKey, Seq<Candle>>, cs: Seq<Candle>, symbol: Symbol, timerange: Timerange) -> Map<
    SeriesKey,
    Seq<Candle>,
>
    decreases cs.len(),
{
    if cs.len() == 0 {
        ws
    } else {
        gap_update(windows_after(ws, cs.drop_last(), symbol, timerange), cs.last(), symbol, timerange).0
    }
}

/// The last three candles of `cs`, or all of them when there are fewer.
pub open spec fn last_three_of(cs: Seq<Candle>) -> Seq<Candle> {
    if cs.len() <= 3 {
        cs
    } else {
        cs.subrange(cs.len() - 3, cs.len() as int)
    }
}

/// Starting from a store with no window for the series, after any number of
/// candles added in turn, the series' window holds the last three of them
/// (all of them when there are fewer), in the order they came, and no
/// addition fails.
pub proof fn lemma_window_holds_last_three(
    ws: Map<SeriesKey, Seq<Candle>>,
    cs: Seq<Candle>,
    symbol: Symbol,
    timerange: Timerange,
)
    requires
        !ws.contains_key(key_of(symbol, timerange)),
        cs.len() >= 1,
    ensures
        windows_after(ws, cs, symbol, timerange).contains_key(key_of(symbol, timerange)),
        windows_after(ws, cs, symbol, timerange)[key_of(symbol, timerange)] == last_three_of(cs),
        forall|i: int|
            0 <= i < cs.len() ==> (#[trigger] gap_update(windows_after(ws, cs.take(i), symbol, timerange), cs[i], symbol, timerange)).1 is Ok,
    decreases cs.len(),
{
    let k = key_of(symbol, timerange);
    let p = cs.drop_last();
    let c = cs.last();
    if cs.len() == 1 {
        assert(windows_after(ws, p, symbol, timerange) == ws);
        assert(seq![c] =~= cs);
        assert forall|i: int| 0 <= i < cs.len() implies (#[trigger] gap_update(windows_after(ws, cs.take(i), symbol, timerange), cs[i], symbol, timerange)).1 is Ok by {
            assert(cs.take(0) =~= Seq::<Candle>::empty());
        }
    } else {
        lemma_window_holds_last_three(ws, p, symbol, timerange);
        let w = last_three_of(p);
        lemma_window_stays_small(w, c, symbol, timerange);
        assert(next_window(w, c) =~= last_three_of(cs));
        assert forall|i: int| 0 <= i < cs.len() implies (#[trigger] gap_update(windows_after(ws, cs.take(i), symbol, timerange), cs[i], symbol, timerange)).1 is Ok by {
            if i < cs.len() - 1 {
                assert(cs.take(i) =~= p.take(i));
                assert(cs[i] == p[i]);
                assert(gap_update(windows_after(ws, p.take(i), symbol, timerange), p[i], symbol, timerange).1 is Ok);
            } else {
                assert(cs.take(i) =~= p);
            }
        }
    }
}

/// A reported fair value gap is stored, then sent, once; it lies in the
/// window of three candles that the new candle completes, whose non-sideways
/// candles all go one way, and it is stamped with the new candle's instant.
/// Its band is a real gap, its high above its low: for a bullish window,
/// from the first candle's high up to the third candle's low; for a bearish
/// window, from the third candle's high up to the first candle's low. When
/// the wicks of the first and third candles overlap, nothing is reported.
pub proof fn lemma_gap_band_is_a_gap(w: Seq<Candle>, c: Candle, symbol: Symbol, timerange: Timerange)
    requires
        gap_reports(w, c, symbol, timerange) is Ok,
    ensures
        ({
            let r = gap_reports(w, c, symbol, timerange)->Ok_0;
            let n = next_window(w, c);
            r.len() == 0 || (r.len() == 2 && match r[0] {
                Report::Store(Published::TwoD(g)) => {
                    &&& r[1] == Report::Send(Published::TwoD(g))
                    &&& n.len() == 3
                    &&& directions_agree(n)
                    &&& g.timestamp == c.timestamp
                    &&& g.symbol == symbol
                    &&& g.timerange == timerange
                    &&& g.high > g.low
                    &&& common_direction(n) == Some(Direction::Bullish) ==> g.low == n[0].high && g.high == n[2].low
                    &&& common_direction(n) == Some(Direction::Bearish) ==> g.high == n[0].low && g.low == n[2].high
                    &&& common_direction(n) == Some(Direction::Bullish) || common_direction(n) == Some(Direction::Bearish)
                },
                _ => false,
            })
        }),
        ({
            let n = next_window(w, c);
            n.len() == 3 && directions_agree(n) && ((common_direction(n) == Some(Direction::Bullish) && n[0].high >= n[2].low)
                || (common_direction(n) == Some(Direction::Bearish) && n[0].low <= n[2].high))
                ==> gap_reports(w, c, symbol, timerange)->Ok_0.len() == 0
        }),
{
}

} // verus!

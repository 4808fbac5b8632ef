use vstd::prelude::*;

use dashmap::DashMap;

use crate::domain::entities::candle::Candle;
use crate::domain::entities::data::{store_and_send, stored_and_sent, Data, Dispatch};
use crate::domain::entities::direction::Direction;
use crate::domain::entities::structures::{TwoDStructure, TwoDStructureLabel};
use crate::domain::series::{key_of, put_window, series_key, take_window, window_slots, SeriesKey};

verus! {

/// The last three candles of `w`, or all of them when there are fewer.
pub open spec fn last_three(w: Seq<Candle>) -> Seq<Candle> {
    if w.len() > 3 {
        w.subrange(w.len() - 3, w.len() as int)
    } else {
        w
    }
}

/// The fair value gap that the window `w` shows when candle `c` closes: the
/// window holds three candles, the first and the third go the same way, not
/// sideways, and the third closes beyond where the first opened (below it
/// for bullish candles, above it for bearish ones). The gap spans the first
/// candle's open and the third candle's close.
pub open spec fn fair_value_gap(w: Seq<Candle>, c: Candle) -> Option<TwoDStructure> {
    if w.len() < 3 {
        None
    } else {
        let first = w[0];
        let third = w[2];
        if first.direction != third.direction || first.direction == Direction::Doji {
            None
        } else if first.direction == Direction::Bullish {
            if third.close < first.open {
                Some(
                    TwoDStructure {
                        symbol: c.symbol,
                        label: TwoDStructureLabel::FVG,
                        timerange: c.timerange,
                        timestamp: c.timestamp,
                        high: third.close,
                        low: first.open,
                        direction: Direction::Bullish,
                    },
                )
            } else {
                None
            }
        } else if third.close > first.open {
            Some(
                TwoDStructure {
                    symbol: c.symbol,
                    label: TwoDStructureLabel::FVG,
                    timerange: c.timerange,
                    timestamp: c.timestamp,
                    high: first.open,
                    low: third.close,
                    direction: Direction::Bearish,
                },
            )
        } else {
            None
        }
    }
}

/// What is stored and sent for a gap, if there is one.
pub open spec fn gap_dispatches(g: Option<TwoDStructure>) -> Seq<Dispatch> {
    match g {
        Some(f) => stored_and_sent(Data::TwoDStructure(f)),
        None => seq![],
    }
}

/// Adds a candle to a window of the last candles of its series and reports
/// the fair value gap that the window then shows.
pub fn fvg_step(window: &mut Vec<Candle>, candle: &Candle) -> (out: Vec<Dispatch>)
    ensures
        final(window)@ == last_three(old(window)@.push(*candle)),
        out@ == gap_dispatches(fair_value_gap(final(window)@, *candle)),
{
    window.push(*candle);
    let ghost full = window@;
    assert(window@ =~= full.subrange(0, full.len() as int));
    while window.len() > 3
        invariant
            full.len() >= 3 ==> window@.len() >= 3,
            full.len() <= 3 ==> window@.len() == full.len(),
            window@.len() <= full.len(),
            window@ == full.subrange(full.len() - window@.len(), full.len() as int),
        decreases window.len(),
    {
        let ghost before = window@;
        window.remove(0);
        assert(window@ =~= full.subrange(full.len() - window@.len(), full.len() as int)) by {
            assert(window@ =~= before.subrange(1, before.len() as int));
        }
    }
    proof {
        if full.len() <= 3 {
            assert(window@ =~= full);
        }
    }
    assert(window@ =~= last_three(full));
    let mut out: Vec<Dispatch> = Vec::new();
    if window.len() < 3 {
        return out;
    }
    let first = window[0];
    let third = window[2];
    if first.direction != third.direction || first.direction == Direction::Doji {
        return out;
    }
    match first.direction {
        Direction::Bullish => {
            if third.close < first.open {
                store_and_send(
                    &mut out,
                    Data::TwoDStructure(
                        TwoDStructure {
                            symbol: candle.symbol,
                            label: TwoDStructureLabel::FVG,
                            timerange: candle.timerange,
                            timestamp: candle.timestamp,
                            high: third.close,
                            low: first.open,
                            direction: Direction::Bullish,
                        },
                    ),
                );
            }
        },
        Direction::Bearish => {
            if third.close > first.open {
                store_and_send(
                    &mut out,
                    Data::TwoDStructure(
                        TwoDStructure {
                            symbol: candle.symbol,
                            label: TwoDStructureLabel::FVG,
                            timerange: candle.timerange,
                            timestamp: candle.timestamp,
                            high: first.open,
                            low: third.close,
                            direction: Direction::Bearish,
                        },
                    ),
                );
            }
        },
        Direction::Doji => {},
    }
    out
}

/// The window of a series in a store: the stored one, or an empty one.
pub open spec fn window_in(m: Map<SeriesKey, Seq<Candle>>, k: SeriesKey) -> Seq<Candle> {
    if m.contains_key(k) {
        m[k]
    } else {
        seq![]
    }
}

/// Adds a candle to the window of its series and returns what is stored and
/// sent for the fair value gap that the window then shows.
pub fn process_fvg(windows: &mut DashMap<SeriesKey, Vec<Candle>>, candle: &Candle) -> (out: Vec<Dispatch>)
    ensures
        ({
            let k = key_of(candle.symbol, candle.timerange);
            let w = last_three(window_in(window_slots(*old(windows)), k).push(*candle));
            &&& window_slots(*final(windows)) == window_slots(*old(windows)).insert(k, w)
            &&& out@ == gap_dispatches(fair_value_gap(w, *candle))
        }),
{
    let key = series_key(candle.symbol, &candle.timerange);
    let mut window = match take_window(windows, key) {
        Some(w) => w,
        None => Vec::new(),
    };
    let out = fvg_step(&mut window, candle);
    put_window(windows, key, window);
    proof {
        assert(window_slots(*final(windows)) =~= window_slots(*old(windows)).insert(key, window@));
    }
    out
}

/// The window never holds more than three candles; it ends with the candle
/// just added, and it is the tail of the series' candles.
pub proof fn lemma_window_tail(w: Seq<Candle>, c: Candle)
    ensures
        last_three(w.push(c)).len() <= 3,
        last_three(w.push(c)).last() == c,
        w.push(c).subrange(
            w.push(c).len() - last_three(w.push(c)).len(),
            w.push(c).len() as int,
        ) == last_three(w.push(c)),
{
    assert(w.push(c).subrange(
        w.push(c).len() - last_three(w.push(c)).len(),
        w.push(c).len() as int,
    ) =~= last_three(w.push(c)));
}

/// A reported gap comes from a window whose first and third candles go the
/// same way, not sideways, and its two prices differ.
pub proof fn lemma_gap_is_directional(w: Seq<Candle>, c: Candle)
    requires
        fair_value_gap(w, c) is Some,
    ensures
        w.len() >= 3,
        w[0].direction == w[2].direction,
        w[0].direction != Direction::Doji,
        fair_value_gap(w, c)->0.direction == w[0].direction,
        fair_value_gap(w, c)->0.high != fair_value_gap(w, c)->0.low,
{
}

/// The gap of a window of three candles whose first and third candles go
/// the same way: for bullish candles, reported exactly when the third closes
/// below the first's open, spanning from the third's close to the first's
/// open; for bearish candles, exactly when the third closes above the
/// first's open, spanning from the first's open to the third's close. It is
/// stamped with the new candle's instant and goes the candles' way. Windows
/// of fewer than three candles, mixed ways or sideways candles show none.
pub proof fn lemma_gap_band(w: Seq<Candle>, c: Candle)
    ensures
        (w.len() < 3 || w[0].direction != w[2].direction || w[0].direction == Direction::Doji) ==> fair_value_gap(w, c) is None,
        w.len() >= 3 && w[0].direction == Direction::Bullish && w[2].direction == Direction::Bullish ==> {
            &&& (fair_value_gap(w, c) is Some <==> w[2].close < w[0].open)
            &&& fair_value_gap(w, c) is Some ==> {
                let g = fair_value_gap(w, c)->0;
                g.high == w[2].close && g.low == w[0].open && g.direction == Direction::Bullish && g.timestamp == c.timestamp
            }
        },
        w.len() >= 3 && w[0].direction == Direction::Bearish && w[2].direction == Direction::Bearish ==> {
            &&& (fair_value_gap(w, c) is Some <==> w[2].close > w[0].open)
            &&& fair_value_gap(w, c) is Some ==> {
                let g = fair_value_gap(w, c)->0;
                g.high == w[0].open && g.low == w[2].close && g.direction == Direction::Bearish && g.timestamp == c.timestamp
            }
        },
{
}

} // verus!

use vstd::prelude::*;

use crate::domain::entities::candle::Candle;
use crate::domain::entities::direction::Direction;
use crate::domain::entities::symbol::Symbol;
use crate::domain::entities::timerange::Timerange;

verus! {

/// The active trend of a series.
#[derive(Clone, Copy, Debug)]
pub struct Trend {
    pub symbol: Symbol,
    pub timerange: Timerange,
    pub start_time: i64,
    pub end_time: i64,
    pub direction: Direction,
    pub high: i64,
    pub low: i64,
    pub high_datetime: Option<i64>,
    pub low_datetime: Option<i64>,
    pub relative_high: Option<i64>,
    pub relative_low: Option<i64>,
}

/// A pull-back against the active trend.
#[derive(Clone, Copy, Debug)]
pub struct Subtrend {
    pub start_time: i64,
    pub direction: Direction,
    pub high: i64,
    pub low: i64,
    pub last_relative_low: i64,
    pub last_relative_high: i64,
    pub last_candle: Candle,
    pub last_relative_low_datetime: i64,
    pub last_relative_high_datetime: i64,
}

/// What trend detection knows of one series: the active trend and the
/// pull-back against it, if any.
#[derive(Clone, Copy, Debug)]
pub struct TrendState {
    pub trend: Option<Trend>,
    pub subtrend: Option<Subtrend>,
}

/// The trend state of a series together with the candles that wait to be
/// replayed after a change of character.
#[derive(Debug)]
pub struct TrendBook {
    pub state: TrendState,
    pub queue: Vec<Candle>,
}

} // verus!

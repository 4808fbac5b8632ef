use vstd::prelude::*;

use crate::domain::entities::symbol::Symbol;
use crate::domain::entities::timerange::Timerange;
use crate::utils::time::{div_toward_zero, valid_timestamp, MAX_TIMESTAMP_MS, MIN_TIMESTAMP_MS};

pub use crate::domain::entities::direction::Direction;

verus! {

/// An OHLC candle. `timestamp` is the start of the period it covers and
/// `end_timestamp` its end (exclusive), both UTC milliseconds.
#[derive(Clone, Copy, Debug)]
pub struct Candle {
    pub symbol: Symbol,
    pub timerange: Timerange,
    pub timestamp: i64,
    pub end_timestamp: i64,
    pub open: i64,
    pub high: i64,
    pub low: i64,
    pub close: i64,
    pub volume: u64,
    pub direction: Direction,
}

/// The direction of a candle that opened at `open` and closed at `close`.
pub open spec fn direction_of(open: int, close: int) -> Direction {
    if close > open {
        Direction::Bullish
    } else if close < open {
        Direction::Bearish
    } else {
        Direction::Doji
    }
}

/// The start of the period of length `duration` that holds `ts`: the instant
/// divided by the duration rounding toward zero, times the duration.
pub open spec fn aligned_start(ts: int, duration: int) -> int {
    div_toward_zero(ts, duration) * duration
}

/// The period of `duration` that holds `ts` can be represented: the duration
/// is not zero, and the period's start and end are valid instants.
pub open spec fn alignable(ts: int, duration: int) -> bool {
    &&& duration != 0
    &&& valid_timestamp(aligned_start(ts, duration))
    &&& valid_timestamp(aligned_start(ts, duration) + duration)
}

impl Candle {
    pub fn new(
        symbol: Symbol,
        timerange: Timerange,
        timestamp: i64,
        open: i64,
        high: i64,
        low: i64,
        close: i64,
        volume: u64,
    ) -> (candle: Self)
        requires
            alignable(timestamp as int, timerange.duration_ms as int),
        ensures
            candle.symbol == symbol,
            candle.timerange == timerange,
            candle.timestamp == aligned_start(timestamp as int, timerange.duration_ms as int),
            candle.end_timestamp == candle.timestamp + timerange.duration_ms,
            candle.open == open,
            candle.high == high,
            candle.low == low,
            candle.close == close,
            candle.volume == volume,
            candle.direction == direction_of(open as int, close as int),
    {
        let direction = Self::compute_direction(open, close);
        let (timestamp, end_timestamp) = Self::align_timestamps(timestamp, timerange.duration_ms);
        Candle {
            symbol,
            timerange,
            end_timestamp,
            timestamp,
            open,
            high,
            low,
            close,
            volume,
            direction,
        }
    }

    fn align_timestamps(timestamp: i64, duration_ms: i64) -> (bounds: (i64, i64))
        requires
            alignable(timestamp as int, duration_ms as int),
        ensures
            bounds.0 == aligned_start(timestamp as int, duration_ms as int),
            bounds.1 == bounds.0 + duration_ms,
    {
        proof {
            lemma_aligned_fits(timestamp as int, duration_ms as int);
            if duration_ms == -1 {
                lemma_minus_one_keeps(timestamp as int, -1);
            }
        }
        let q = quotient_toward_zero(timestamp, duration_ms);
        let aligned = q * duration_ms;
        (aligned, aligned + duration_ms)
    }

    fn compute_direction(open: i64, close: i64) -> (d: Direction)
        ensures
            d == direction_of(open as int, close as int),
    {
        if close > open {
            Direction::Bullish
        } else if close < open {
            Direction::Bearish
        } else {
            Direction::Doji
        }
    }
}

/// Whether the period of `duration` that holds `ts` can be represented.
pub fn alignable_exec(ts: i64, duration: i64) -> (b: bool)
    ensures
        b == alignable(ts as int, duration as int),
{
    if duration == 0 {
        return false;
    }
    if ts == i64::MIN && duration == -1 {
        proof {
            lemma_minus_one_keeps(ts as int, -1);
        }
        return false;
    }
    proof {
        lemma_aligned_fits(ts as int, duration as int);
    }
    let q = quotient_toward_zero(ts, duration);
    assert(-0x8000_0000_0000_0000 <= q as int * duration as int <= 0x8000_0000_0000_0000);
    let start = q as i128 * duration as i128;
    let end = start + duration as i128;
    MIN_TIMESTAMP_MS as i128 <= start && start <= MAX_TIMESTAMP_MS as i128 && MIN_TIMESTAMP_MS as i128 <= end
        && end <= MAX_TIMESTAMP_MS as i128
}

pub(crate) proof fn lemma_aligned_fits(ts: int, d: int)
    requires
        d != 0,
    ensures
        -(if ts >= 0 { ts } else { -ts }) <= aligned_start(ts, d) <= (if ts >= 0 { ts } else { -ts }),
{
    let a = if ts >= 0 { ts } else { -ts };
    let b = if d >= 0 { d } else { -d };
    let q = a / b;
    assert(0 <= q * b <= a) by (nonlinear_arith)
        requires q == a / b, a >= 0, b > 0;
    if (ts >= 0) == (d > 0) {
        assert(aligned_start(ts, d) == q * d);
        if d > 0 {
        } else {
            assert(q * d == -(q * b)) by (nonlinear_arith) requires b == -d;
        }
    } else {
        assert(aligned_start(ts, d) == (-q) * d);
        if d > 0 {
            assert((-q) * d == -(q * b)) by (nonlinear_arith) requires b == d;
        } else {
            assert((-q) * d == q * b) by (nonlinear_arith) requires b == -d;
        }
    }
}

/// `ts / d` in Rust: the quotient rounded toward zero.
pub(crate) fn quotient_toward_zero(ts: i64, d: i64) -> (q: i64)
    requires
        d != 0,
        !(ts == i64::MIN && d == -1),
    ensures
        q == div_toward_zero(ts as int, d as int),
{
    if d > 0 {
        ts / d
    } else if d == i64::MIN {
        if ts == i64::MIN {
            1
        } else {
            proof {
                let a = if ts >= 0 { ts as int } else { -ts };
                assert(a / (-(i64::MIN as int)) == 0);
            }
            0
        }
    } else if d == -1 {
        assert(div_toward_zero(ts as int, -1) == -ts) by {
            let a = if ts >= 0 { ts as int } else { -ts };
            assert(a / 1 == a);
        }
        -ts
    } else {
        let p = ts / (-d);
        assert(p == div_toward_zero(ts as int, -d as int));
        proof {
            let a = if ts >= 0 { ts as int } else { -ts };
            let b = -d as int;
            assert(0 <= a / b <= a / 2) by (nonlinear_arith)
                requires a >= 0, b >= 2;
        }
        -p
    }
}

pub(crate) proof fn lemma_minus_one_keeps(ts: int, d: int)
    requires
        d == -1,
    ensures
        aligned_start(ts, d) == ts,
{
    let a = if ts >= 0 { ts } else { -ts };
    assert(a / 1 == a);
}

/// For an instant at or after the epoch, the aligned period starts at a
/// multiple of the duration, at or before the instant, and ends after it.
pub proof fn lemma_alignment_brackets(ts: int, d: int)
    requires
        d > 0,
        ts >= 0,
    ensures
        aligned_start(ts, d) <= ts < aligned_start(ts, d) + d,
        aligned_start(ts, d) % d == 0,
{
    let q = ts / d;
    assert(ts == q * d + ts % d) by (nonlinear_arith) requires q == ts / d, d > 0;
    vstd::arithmetic::div_mod::lemma_mod_multiples_basic(q, d);
}

} // verus!

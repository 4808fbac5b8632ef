use vstd::prelude::*;

verus! {

/// The direction of a candle, a trend or a structure.
#[derive(Clone, Copy, Debug, PartialEq, Eq, Structural)]
pub enum Direction {
    Bullish,
    Bearish,
    Doji,
}

/// The lower-case name of a direction.
pub open spec fn direction_text(d: Direction) -> Seq<char> {
    match d {
        Direction::Bullish => "bullish"@,
        Direction::Bearish => "bearish"@,
        Direction::Doji => "doji"@,
    }
}

impl Direction {
    pub fn into_text(self) -> (text: &'static str)
        ensures
            text@ == direction_text(self),
    {
        match self {
            Direction::Bullish => "bullish",
            Direction::Bearish => "bearish",
            Direction::Doji => "doji",
        }
    }
}

} // verus!

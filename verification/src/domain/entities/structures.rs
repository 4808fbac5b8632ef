use vstd::prelude::*;

use crate::domain::entities::direction::Direction;
use crate::domain::entities::symbol::Symbol;
use crate::domain::entities::timerange::Timerange;

verus! {

/// A structure marked at a single price: a break of structure, a change of
/// character, a relative high or a relative low.
#[derive(Clone, Copy, Debug, PartialEq, Eq, Structural)]
pub enum OneDStructureLabel {
    BOS,
    CHOCH,
    RH,
    RL,
}

/// The short name of a single-price structure.
pub open spec fn one_d_label_text(l: OneDStructureLabel) -> Seq<char> {
    match l {
        OneDStructureLabel::BOS => "BoS"@,
        OneDStructureLabel::CHOCH => "CHoCH"@,
        OneDStructureLabel::RH => "RH"@,
        OneDStructureLabel::RL => "RL"@,
    }
}

impl OneDStructureLabel {
    pub fn into_text(&self) -> (text: &'static str)
        ensures
            text@ == one_d_label_text(*self),
    {
        match self {
            OneDStructureLabel::BOS => "BoS",
            OneDStructureLabel::CHOCH => "CHoCH",
            OneDStructureLabel::RH => "RH",
            OneDStructureLabel::RL => "RL",
        }
    }
}

/// A structure marked at a single price.
#[derive(Clone, Copy, Debug)]
pub struct OneDStructure {
    pub symbol: Symbol,
    pub label: OneDStructureLabel,
    pub timerange: Timerange,
    pub timestamp: i64,
    pub price: i64,
    pub direction: Direction,
}

/// A structure that spans a price band: an order block or a fair value gap.
#[derive(Clone, Copy, Debug, PartialEq, Eq, Structural)]
pub enum TwoDStructureLabel {
    OB,
    FVG,
}

/// The short name of a price-band structure.
pub open spec fn two_d_label_text(l: TwoDStructureLabel) -> Seq<char> {
    match l {
        TwoDStructureLabel::OB => "OB"@,
        TwoDStructureLabel::FVG => "FVG"@,
    }
}

impl TwoDStructureLabel {
    pub fn into_text(&self) -> (text: &'static str)
        ensures
            text@ == two_d_label_text(*self),
    {
        match self {
            TwoDStructureLabel::OB => "OB",
            TwoDStructureLabel::FVG => "FVG",
        }
    }
}

/// A structure that spans the band between `low` and `high`.
#[derive(Clone, Copy, Debug)]
pub struct TwoDStructure {
    pub symbol: Symbol,
    pub label: TwoDStructureLabel,
    pub timerange: Timerange,
    pub timestamp: i64,
    pub high: i64,
    pub low: i64,
    pub direction: Direction,
}

} // verus!

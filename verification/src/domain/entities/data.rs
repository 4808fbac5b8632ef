use vstd::prelude::*;

use crate::domain::entities::candle::Candle;
use crate::domain::entities::session::Session;
use crate::domain::entities::structures::{OneDStructure, TwoDStructure};
use crate::domain::entities::trend::Trend;

verus! {

/// A datum that analysis produces.
#[derive(Clone, Copy, Debug)]
pub enum Data {
    Candle(Candle),
    OneDStructure(OneDStructure),
    Session(Session),
    Trend(Trend),
    TwoDStructure(TwoDStructure),
}

/// Where a datum goes: stored in the database, or sent to the live feed.
#[derive(Clone, Copy, Debug)]
pub enum Dispatch {
    Insert(Data),
    Send(Data),
}

/// A datum stored, then sent.
pub open spec fn stored_and_sent(d: Data) -> Seq<Dispatch> {
    seq![Dispatch::Insert(d), Dispatch::Send(d)]
}

/// The dispatches that store, then send, each datum of `ds` in turn.
pub open spec fn all_stored_and_sent(ds: Seq<Data>) -> Seq<Dispatch>
    decreases ds.len(),
{
    if ds.len() == 0 {
        seq![]
    } else {
        all_stored_and_sent(ds.drop_last()) + stored_and_sent(ds.last())
    }
}

/// Appends to `out` the dispatches that store, then send, `d`.
pub fn store_and_send(out: &mut Vec<Dispatch>, d: Data)
    ensures
        final(out)@ == old(out)@ + stored_and_sent(d),
{
    out.push(Dispatch::Insert(d));
    out.push(Dispatch::Send(d));
}

/// The GraphQL mutation that inserts a datum of the kind of `d`.
pub open spec fn mutation_of(d: Data) -> Seq<char> {
    match d {
        Data::Candle(_) => "mutation ($input: CandleInput!) { insertCandle(input: $input) }"@,
        Data::OneDStructure(_) => "mutation ($input: OneDStructureInput!) { insertOneDStructure(input: $input) }"@,
        Data::Trend(_) => "mutation ($input: TrendInput!) { insertTrend(input: $input) }"@,
        Data::Session(_) => "mutation ($input: SessionInput!) { insertSession(input: $input) }"@,
        Data::TwoDStructure(_) => "mutation ($input: TwoDStructureInput!) { insertTwoDStructure(input: $input) }"@,
    }
}

impl Data {
    /// The GraphQL mutation that inserts this datum.
    pub fn graphql_mutation(&self) -> (m: &'static str)
        ensures
            m@ == mutation_of(*self),
    {
        match self {
            Data::Candle(_) => "mutation ($input: CandleInput!) { insertCandle(input: $input) }",
            Data::OneDStructure(_) => "mutation ($input: OneDStructureInput!) { insertOneDStructure(input: $input) }",
            Data::Trend(_) => "mutation ($input: TrendInput!) { insertTrend(input: $input) }",
            Data::Session(_) => "mutation ($input: SessionInput!) { insertSession(input: $input) }",
            Data::TwoDStructure(_) => "mutation ($input: TwoDStructureInput!) { insertTwoDStructure(input: $input) }",
        }
    }
}

} // verus!

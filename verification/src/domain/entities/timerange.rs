use vstd::prelude::*;

verus! {

/// The span that a candle covers.
#[derive(Clone, Copy, Debug)]
pub struct Timerange {
    pub label: &'static str,
    pub duration_ms: i64,
}

/// The duration of the `i`-th standard timerange.
pub open spec fn standard_duration(i: int) -> i64 {
    if i == 0 {
        60_000
    } else if i == 1 {
        300_000
    } else if i == 2 {
        900_000
    } else if i == 3 {
        1_800_000
    } else if i == 4 {
        3_600_000
    } else if i == 5 {
        14_400_000
    } else if i == 6 {
        86_400_000
    } else {
        604_800_000
    }
}

/// The label of the `i`-th standard timerange.
pub open spec fn standard_label(i: int) -> Seq<char> {
    if i == 0 {
        "1min"@
    } else if i == 1 {
        "5min"@
    } else if i == 2 {
        "15min"@
    } else if i == 3 {
        "30min"@
    } else if i == 4 {
        "1h"@
    } else if i == 5 {
        "4h"@
    } else if i == 6 {
        "1d"@
    } else {
        "1w"@
    }
}

/// The timeranges over which candles are aggregated, from the shortest to the longest.
pub fn timeranges() -> (ranges: Vec<Timerange>)
    ensures
        ranges@.len() == 8,
        forall|i: int|
            0 <= i < 8 ==> #[trigger] ranges@[i].duration_ms == standard_duration(i)
                && ranges@[i].label@ == standard_label(i),
{
    let mut ranges: Vec<Timerange> = Vec::new();
    ranges.push(Timerange { label: "1min", duration_ms: 60_000 });
    ranges.push(Timerange { label: "5min", duration_ms: 300_000 });
    ranges.push(Timerange { label: "15min", duration_ms: 900_000 });
    ranges.push(Timerange { label: "30min", duration_ms: 1_800_000 });
    ranges.push(Timerange { label: "1h", duration_ms: 3_600_000 });
    ranges.push(Timerange { label: "4h", duration_ms: 14_400_000 });
    ranges.push(Timerange { label: "1d", duration_ms: 86_400_000 });
    ranges.push(Timerange { label: "1w", duration_ms: 604_800_000 });
    ranges
}

} // verus!

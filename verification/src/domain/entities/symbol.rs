use vstd::prelude::*;

verus! {

/// A traded instrument.
#[derive(Clone, Copy, Debug, PartialEq, Eq, Hash, Structural)]
pub enum Symbol {
    EURUSD,
    Unknown,
}

/// The symbol that a textual name denotes.
pub open spec fn symbol_from_text(s: Seq<char>) -> Symbol {
    if s == "EURUSD"@ || s == "EUR/USD"@ {
        Symbol::EURUSD
    } else {
        Symbol::Unknown
    }
}

/// The display name of a symbol.
pub open spec fn symbol_text(s: Symbol) -> Seq<char> {
    match s {
        Symbol::EURUSD => "EUR/USD"@,
        Symbol::Unknown => "Unknown"@,
    }
}

/// Character-wise equality of two strings.
pub fn str_equal(a: &str, b: &str) -> (eq: bool)
    ensures
        eq == (a@ == b@),
{
    let n = a.unicode_len();
    if n != b.unicode_len() {
        return false;
    }
    let mut i: usize = 0;
    while i < n
        invariant
            n == a@.len(),
            n == b@.len(),
            i <= n,
            forall|j: int| 0 <= j < i ==> a@[j] == b@[j],
        decreases n - i,
    {
        if a.get_char(i) != b.get_char(i) {
            return false;
        }
        i = i + 1;
    }
    assert(a@ =~= b@);
    true
}

impl Symbol {
    pub fn get_from_str(symbol: &str) -> (s: Symbol)
        ensures
            s == symbol_from_text(symbol@),
    {
        if str_equal(symbol, "EURUSD") || str_equal(symbol, "EUR/USD") {
            Symbol::EURUSD
        } else {
            Symbol::Unknown
        }
    }

    pub fn into_text(&self) -> (text: &'static str)
        ensures
            text@ == symbol_text(*self),
    {
        match self {
            Symbol::EURUSD => "EUR/USD",
            Symbol::Unknown => "Unknown",
        }
    }
}

/// Reading back the display name of a symbol gives the same symbol.
pub proof fn symbol_text_round_trip(s: Symbol)
    ensures
        symbol_from_text(symbol_text(s)) == s,
{
    reveal_strlit("EURUSD");
    reveal_strlit("EUR/USD");
    reveal_strlit("Unknown");
    if s == Symbol::Unknown {
        assert("Unknown"@.len() != "EURUSD"@.len());
        assert("Unknown"@[0] != "EUR/USD"@[0]);
    }
}

} // verus!

//! Per-series stores. A series is a symbol seen at one timerange; it is
//! keyed by the symbol's code and the timerange's duration.
use vstd::prelude::*;

use dashmap::DashMap;

use crate::domain::entities::candle::Candle;
use crate::domain::entities::session::Session;
use crate::domain::entities::symbol::Symbol;
use crate::domain::entities::timerange::Timerange;
use crate::domain::entities::trend::{TrendBook, TrendState};

verus! {

#[verifier::external_type_specification]
#[verifier::external_body]
#[verifier::reject_recursive_types(K)]
#[verifier::reject_recursive_types(V)]
#[verifier::reject_recursive_types(S)]
pub struct ExDashMap<K, V, S>(DashMap<K, V, S>);

/// The key of a series: the symbol's code and the timerange's duration.
pub type SeriesKey = (u8, i64);

/// The code of a symbol.
pub open spec fn symbol_code(s: Symbol) -> u8 {
    match s {
        Symbol::EURUSD => 0,
        Symbol::Unknown => 1,
    }
}

/// The key of the series of `s` at timerange `t`.
pub open spec fn key_of(s: Symbol, t: Timerange) -> SeriesKey {
    (symbol_code(s), t.duration_ms)
}

/// The key under which the state of a whole symbol is kept.
pub open spec fn symbol_key_of(s: Symbol) -> SeriesKey {
    (symbol_code(s), 0)
}

pub fn series_key(symbol: Symbol, timerange: &Timerange) -> (k: SeriesKey)
    ensures
        k == key_of(symbol, *timerange),
{
    (symbol_code_of(symbol), timerange.duration_ms)
}

pub fn symbol_key(symbol: Symbol) -> (k: SeriesKey)
    ensures
        k == symbol_key_of(symbol),
{
    (symbol_code_of(symbol), 0)
}

fn symbol_code_of(symbol: Symbol) -> (c: u8)
    ensures
        c == symbol_code(symbol),
{
    match symbol {
        Symbol::EURUSD => 0,
        Symbol::Unknown => 1,
    }
}

/// What a store of candles holds.
pub uninterp spec fn candle_slots(m: DashMap<SeriesKey, Candle>) -> Map<SeriesKey, Candle>;

/// `DashMap::remove`: takes the candle stored under `key` out of the store,
/// if there is one.
#[verifier::external_body]
pub(crate) fn take_candle(m: &mut DashMap<SeriesKey, Candle>, key: SeriesKey) -> (c: Option<Candle>)
    ensures
        c is Some == candle_slots(*old(m)).contains_key(key),
        c is Some ==> c->0 == candle_slots(*old(m))[key],
        candle_slots(*final(m)) == candle_slots(*old(m)).remove(key),
{
    m.remove(&key).map(|(_, v)| v)
}

/// `DashMap::insert`: stores `c` under `key`, replacing what was there.
#[verifier::external_body]
pub(crate) fn put_candle(m: &mut DashMap<SeriesKey, Candle>, key: SeriesKey, c: Candle)
    ensures
        candle_slots(*final(m)) == candle_slots(*old(m)).insert(key, c),
{
    m.insert(key, c);
}

/// What a store of candle windows holds.
pub uninterp spec fn window_slots(m: DashMap<SeriesKey, Vec<Candle>>) -> Map<SeriesKey, Seq<Candle>>;

/// `DashMap::remove`: takes the window stored under `key` out of the store,
/// if there is one.
#[verifier::external_body]
pub(crate) fn take_window(m: &mut DashMap<SeriesKey, Vec<Candle>>, key: SeriesKey) -> (w: Option<Vec<Candle>>)
    ensures
        w is Some == window_slots(*old(m)).contains_key(key),
        w is Some ==> w->0@ == window_slots(*old(m))[key],
        window_slots(*final(m)) == window_slots(*old(m)).remove(key),
{
    m.remove(&key).map(|(_, v)| v)
}

/// `DashMap::insert`: stores `w` under `key`, replacing what was there.
#[verifier::external_body]
pub(crate) fn put_window(m: &mut DashMap<SeriesKey, Vec<Candle>>, key: SeriesKey, w: Vec<Candle>)
    ensures
        window_slots(*final(m)) == window_slots(*old(m)).insert(key, w@),
{
    m.insert(key, w);
}

/// What a store of sessions holds.
pub uninterp spec fn session_slots(m: DashMap<SeriesKey, Session>) -> Map<SeriesKey, Session>;

/// `DashMap::remove`: takes the session stored under `key` out of the store,
/// if there is one.
#[verifier::external_body]
pub(crate) fn take_session(m: &mut DashMap<SeriesKey, Session>, key: SeriesKey) -> (s: Option<Session>)
    ensures
        s is Some == session_slots(*old(m)).contains_key(key),
        s is Some ==> s->0 == session_slots(*old(m))[key],
        session_slots(*final(m)) == session_slots(*old(m)).remove(key),
{
    m.remove(&key).map(|(_, v)| v)
}

/// `DashMap::insert`: stores `s` under `key`, replacing what was there.
#[verifier::external_body]
pub(crate) fn put_session(m: &mut DashMap<SeriesKey, Session>, key: SeriesKey, s: Session)
    ensures
        session_slots(*final(m)) == session_slots(*old(m)).insert(key, s),
{
    m.insert(key, s);
}

/// The model of a trend book: its trend state and its queue of candles.
pub open spec fn book_view(b: TrendBook) -> (TrendState, Seq<Candle>) {
    (b.state, b.queue@)
}

/// What a store of trend books holds.
pub uninterp spec fn book_slots(m: DashMap<SeriesKey, TrendBook>) -> Map<SeriesKey, (TrendState, Seq<Candle>)>;

/// `DashMap::remove`: takes the trend book stored under `key` out of the
/// store, if there is one.
#[verifier::external_body]
pub(crate) fn take_book(m: &mut DashMap<SeriesKey, TrendBook>, key: SeriesKey) -> (b: Option<TrendBook>)
    ensures
        b is Some == book_slots(*old(m)).contains_key(key),
        b is Some ==> book_view(b->0) == book_slots(*old(m))[key],
        book_slots(*final(m)) == book_slots(*old(m)).remove(key),
{
    m.remove(&key).map(|(_, v)| v)
}

/// `DashMap::insert`: stores `b` under `key`, replacing what was there.
#[verifier::external_body]
pub(crate) fn put_book(m: &mut DashMap<SeriesKey, TrendBook>, key: SeriesKey, b: TrendBook)
    ensures
        book_slots(*final(m)) == book_slots(*old(m)).insert(key, book_view(b)),
{
    m.insert(key, b);
}

/// The per-series stores of the analysis.
pub struct Registries {
    pub candles: DashMap<SeriesKey, Candle>,
    pub books: DashMap<SeriesKey, TrendBook>,
    pub windows: DashMap<SeriesKey, Vec<Candle>>,
    pub sessions: DashMap<SeriesKey, Session>,
}

/// `DashMap::new`, once for each store: four empty stores.
#[verifier::external_body]
fn empty_registries() -> (r: Registries)
    ensures
        candle_slots(r.candles).dom() == Set::<SeriesKey>::empty(),
        book_slots(r.books).dom() == Set::<SeriesKey>::empty(),
        window_slots(r.windows).dom() == Set::<SeriesKey>::empty(),
        session_slots(r.sessions).dom() == Set::<SeriesKey>::empty(),
{
    Registries { candles: DashMap::new(), books: DashMap::new(), windows: DashMap::new(), sessions: DashMap::new() }
}

impl Registries {
    /// Stores that hold nothing yet.
    pub fn new() -> (r: Self)
        ensures
            candle_slots(r.candles).dom() == Set::<SeriesKey>::empty(),
            book_slots(r.books).dom() == Set::<SeriesKey>::empty(),
            window_slots(r.windows).dom() == Set::<SeriesKey>::empty(),
            session_slots(r.sessions).dom() == Set::<SeriesKey>::empty(),
    {
        empty_registries()
    }
}

} // verus!

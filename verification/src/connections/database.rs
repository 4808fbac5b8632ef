use vstd::prelude::*;

use dashmap::DashMap;

use crate::domain::entities::candle::Candle;
use crate::domain::entities::session::Session;
use crate::domain::entities::symbol::symbol_text;
use crate::domain::entities::trend::Trend;
use crate::handlers::structures::{OneDStructures, TwoDStructures};

verus! {

/// What is waiting to be written to the database for one symbol.
#[derive(Debug)]
pub struct DatabaseData {
    pub candles: Vec<Candle>,
    pub one_d_structure: Vec<OneDStructures>,
    pub sessions: Vec<Session>,
    pub trends: Vec<Trend>,
    pub two_d_structure: Vec<TwoDStructures>,
}

/// The model of the buffers of one symbol.
pub struct DatabaseView {
    pub candles: Seq<Candle>,
    pub one_d_structure: Seq<OneDStructures>,
    pub sessions: Seq<Session>,
    pub trends: Seq<Trend>,
    pub two_d_structure: Seq<TwoDStructures>,
}

impl View for DatabaseData {
    type V = DatabaseView;

    open spec fn view(&self) -> DatabaseView {
        DatabaseView {
            candles: self.candles@,
            one_d_structure: self.one_d_structure@,
            sessions: self.sessions@,
            trends: self.trends@,
            two_d_structure: self.two_d_structure@,
        }
    }
}

/// Empty buffers.
pub open spec fn empty_buffers() -> DatabaseView {
    DatabaseView {
        candles: seq![],
        one_d_structure: seq![],
        sessions: seq![],
        trends: seq![],
        two_d_structure: seq![],
    }
}

/// What a store of database buffers holds, by symbol name.
pub uninterp spec fn database_slots(m: DashMap<String, DatabaseData>) -> Map<Seq<char>, DatabaseView>;

/// `DashMap::remove`: takes the buffers of `symbol` out of the store, if
/// there are any.
#[verifier::external_body]
fn take_buffers(m: &mut DashMap<String, DatabaseData>, symbol: &str) -> (d: Option<DatabaseData>)
    ensures
        d is Some == database_slots(*old(m)).contains_key(symbol@),
        d is Some ==> d->0@ == database_slots(*old(m))[symbol@],
        database_slots(*final(m)) == database_slots(*old(m)).remove(symbol@),
{
    m.remove(symbol).map(|(_, v)| v)
}

/// `DashMap::insert`: stores `d` as the buffers of `symbol`, replacing what
/// was there.
#[verifier::external_body]
fn put_buffers(m: &mut DashMap<String, DatabaseData>, symbol: String, d: DatabaseData)
    ensures
        database_slots(*final(m)) == database_slots(*old(m)).insert(symbol@, d@),
{
    m.insert(symbol, d);
}

/// Opens empty buffers for a symbol, replacing any it had.
pub fn init_database_data(database: &mut DashMap<String, DatabaseData>, symbol: &str)
    ensures
        database_slots(*final(database)) == database_slots(*old(database)).insert(symbol@, empty_buffers()),
{
    let data = DatabaseData {
        candles: Vec::new(),
        one_d_structure: Vec::new(),
        sessions: Vec::new(),
        trends: Vec::new(),
        two_d_structure: Vec::new(),
    };
    put_buffers(database, symbol.to_owned(), data);
    assert(data@ =~= empty_buffers());
}

/// Drops the buffers of a symbol.
pub fn reset_database_data(database: &mut DashMap<String, DatabaseData>, symbol: &str)
    ensures
        database_slots(*final(database)) == database_slots(*old(database)).remove(symbol@),
{
    take_buffers(database, symbol);
}

/// The outcome of adding an item to the buffers of `symbol`: an error when
/// the symbol has no buffers, otherwise the buffers with the item added by `extend`.
pub open spec fn added(
    slots: Map<Seq<char>, DatabaseView>,
    symbol: Seq<char>,
    extend: spec_fn(DatabaseView) -> DatabaseView,
) -> Option<Map<Seq<char>, DatabaseView>> {
    if slots.contains_key(symbol) {
        Some(slots.insert(symbol, extend(slots[symbol])))
    } else {
        None
    }
}

/// The error reported for a symbol without buffers.
pub open spec fn missing_symbol(r: Result<(), String>) -> bool {
    r is Err && r->Err_0@ == "Symbol does not exist"@
}

/// Adds a candle to the buffers of its symbol.
pub fn add_candle(database: &mut DashMap<String, DatabaseData>, candle: &Candle) -> (res: Result<(), String>)
    ensures
        match added(database_slots(*old(database)), symbol_text(candle.symbol), |v: DatabaseView| DatabaseView { candles: v.candles.push(*candle), ..v }) {
            Some(m) => res is Ok && database_slots(*final(database)) == m,
            None => missing_symbol(res) && database_slots(*final(database)) == database_slots(*old(database)),
        },
{
    let symbol = candle.symbol.into_text();
    match take_buffers(database, symbol) {
        Some(mut data) => {
            data.candles.push(*candle);
            put_buffers(database, symbol.to_owned(), data);
            assert(database_slots(*final(database)) =~= database_slots(*old(database)).insert(
                symbol@,
                DatabaseView { candles: database_slots(*old(database))[symbol@].candles.push(*candle), ..database_slots(*old(database))[symbol@] },
            ));
            Ok(())
        },
        None => {
            assert(database_slots(*final(database)) =~= database_slots(*old(database)));
            Err(String::from_str("Symbol does not exist"))
        },
    }
}

/// Adds a single-price structure to the buffers of its symbol.
pub fn add_one_d_structure(database: &mut DashMap<String, DatabaseData>, one_d_structure: &OneDStructures) -> (res: Result<(), String>)
    ensures
        match added(database_slots(*old(database)), symbol_text(one_d_structure.symbol), |v: DatabaseView| DatabaseView { one_d_structure: v.one_d_structure.push(*one_d_structure), ..v }) {
            Some(m) => res is Ok && database_slots(*final(database)) == m,
            None => missing_symbol(res) && database_slots(*final(database)) == database_slots(*old(database)),
        },
{
    let symbol = one_d_structure.symbol.into_text();
    match take_buffers(database, symbol) {
        Some(mut data) => {
            data.one_d_structure.push(*one_d_structure);
            put_buffers(database, symbol.to_owned(), data);
            assert(database_slots(*final(database)) =~= database_slots(*old(database)).insert(
                symbol@,
                DatabaseView { one_d_structure: database_slots(*old(database))[symbol@].one_d_structure.push(*one_d_structure), ..database_slots(*old(database))[symbol@] },
            ));
            Ok(())
        },
        None => {
            assert(database_slots(*final(database)) =~= database_slots(*old(database)));
            Err(String::from_str("Symbol does not exist"))
        },
    }
}

/// Adds a session to the buffers of its symbol.
pub fn add_session(database: &mut DashMap<String, DatabaseData>, session: &Session) -> (res: Result<(), String>)
    ensures
        match added(database_slots(*old(database)), symbol_text(session.symbol), |v: DatabaseView| DatabaseView { sessions: v.sessions.push(*session), ..v }) {
            Some(m) => res is Ok && database_slots(*final(database)) == m,
            None => missing_symbol(res) && database_slots(*final(database)) == database_slots(*old(database)),
        },
{
    let symbol = session.symbol.into_text();
    match take_buffers(database, symbol) {
        Some(mut data) => {
            data.sessions.push(*session);
            put_buffers(database, symbol.to_owned(), data);
            assert(database_slots(*final(database)) =~= database_slots(*old(database)).insert(
                symbol@,
                DatabaseView { sessions: database_slots(*old(database))[symbol@].sessions.push(*session), ..database_slots(*old(database))[symbol@] },
            ));
            Ok(())
        },
        None => {
            assert(database_slots(*final(database)) =~= database_slots(*old(database)));
            Err(String::from_str("Symbol does not exist"))
        },
    }
}

/// Adds a trend to the buffers of its symbol.
pub fn add_trend(database: &mut DashMap<String, DatabaseData>, trend: &Trend) -> (res: Result<(), String>)
    ensures
        match added(database_slots(*old(database)), symbol_text(trend.symbol), |v: DatabaseView| DatabaseView { trends: v.trends.push(*trend), ..v }) {
            Some(m) => res is Ok && database_slots(*final(database)) == m,
            None => missing_symbol(res) && database_slots(*final(database)) == database_slots(*old(database)),
        },
{
    let symbol = trend.symbol.into_text();
    match take_buffers(database, symbol) {
        Some(mut data) => {
            data.trends.push(*trend);
            put_buffers(database, symbol.to_owned(), data);
            assert(database_slots(*final(database)) =~= database_slots(*old(database)).insert(
                symbol@,
                DatabaseView { trends: database_slots(*old(database))[symbol@].trends.push(*trend), ..database_slots(*old(database))[symbol@] },
            ));
            Ok(())
        },
        None => {
            assert(database_slots(*final(database)) =~= database_slots(*old(database)));
            Err(String::from_str("Symbol does not exist"))
        },
    }
}

/// Adds a price-band structure to the buffers of its symbol.
pub fn add_two_d_structure(database: &mut DashMap<String, DatabaseData>, two_d_structure: &TwoDStructures) -> (res: Result<(), String>)
    ensures
        match added(database_slots(*old(database)), symbol_text(two_d_structure.symbol), |v: DatabaseView| DatabaseView { two_d_structure: v.two_d_structure.push(*two_d_structure), ..v }) {
            Some(m) => res is Ok && database_slots(*final(database)) == m,
            None => missing_symbol(res) && database_slots(*final(database)) == database_slots(*old(database)),
        },
{
    let symbol = two_d_structure.symbol.into_text();
    match take_buffers(database, symbol) {
        Some(mut data) => {
            data.two_d_structure.push(*two_d_structure);
            put_buffers(database, symbol.to_owned(), data);
            assert(database_slots(*final(database)) =~= database_slots(*old(database)).insert(
                symbol@,
                DatabaseView { two_d_structure: database_slots(*old(database))[symbol@].two_d_structure.push(*two_d_structure), ..database_slots(*old(database))[symbol@] },
            ));
            Ok(())
        },
        None => {
            assert(database_slots(*final(database)) =~= database_slots(*old(database)));
            Err(String::from_str("Symbol does not exist"))
        },
    }
}


/// Adding to a symbol whose buffers were just opened succeeds; adding to a
/// symbol whose buffers were just dropped fails.
pub proof fn lemma_add_after_init_or_reset(
    slots: Map<Seq<char>, DatabaseView>,
    symbol: Seq<char>,
    extend: spec_fn(DatabaseView) -> DatabaseView,
)
    ensures
        added(slots.insert(symbol, empty_buffers()), symbol, extend) == Some(
            slots.insert(symbol, extend(empty_buffers())),
        ),
        added(slots.remove(symbol), symbol, extend) is None,
{
    assert(slots.insert(symbol, empty_buffers()).insert(symbol, extend(empty_buffers())) =~= slots.insert(symbol, extend(empty_buffers())));
}

} // verus!

use base64::engine::general_purpose;
use base64::Engine as _;
use dashmap::DashMap;
use trading_core::connections::auth::jwt_claims;
use trading_core::connections::database::{
    add_candle, add_one_d_structure, add_session, add_trend, add_two_d_structure,
    init_database_data, reset_database_data, DatabaseData,
};
use trading_core::domain::entities::candle::Candle;
use trading_core::domain::entities::session::Session;
use trading_core::domain::entities::symbol::Symbol;
use trading_core::domain::entities::timerange::Timerange;
use trading_core::domain::entities::trend::TrendState;
use trading_core::handlers::structures::{OneDStructures, TwoDStructures};
use trading_core::handlers::trends::named_step_exec;
use trading_core::utils::utils::{generate_rand_base64, is_in_timerange};

const MINUTE: Timerange = Timerange { label: "1min", duration_ms: 60_000 };

fn candle(symbol: Symbol, ts: i64) -> Candle {
    Candle::new(symbol, MINUTE, ts, 100, 120, 90, 110, 10)
}

#[test]
fn buffers_accept_items_once_opened() {
    let mut db: DashMap<String, DatabaseData> = DashMap::new();
    let c = candle(Symbol::EURUSD, 0);
    assert_eq!(add_candle(&mut db, &c), Err("Symbol does not exist".to_string()));
    init_database_data(&mut db, "EUR/USD");
    assert_eq!(add_candle(&mut db, &c), Ok(()));
    assert_eq!(add_candle(&mut db, &candle(Symbol::EURUSD, 60_000)), Ok(()));
    assert_eq!(add_candle(&mut db, &candle(Symbol::Unknown, 0)), Err("Symbol does not exist".to_string()));
    {
        let data = db.get("EUR/USD").unwrap();
        assert_eq!(data.candles.iter().map(|c| c.timestamp).collect::<Vec<_>>(), vec![0, 60_000]);
        assert!(data.trends.is_empty());
    }
    let s = Session::new(&candle(Symbol::EURUSD, 32_400_000));
    assert_eq!(add_session(&mut db, &s), Ok(()));
    let mut st = TrendState { trend: None, subtrend: None };
    named_step_exec(&mut st, &c);
    assert_eq!(add_trend(&mut db, &st.trend.unwrap()), Ok(()));
    let one = OneDStructures {
        symbol: Symbol::EURUSD,
        structure: "Relative High",
        timerange: MINUTE,
        timestamp: 0,
        price: 120,
        direction: "Relative High",
    };
    assert_eq!(add_one_d_structure(&mut db, &one), Ok(()));
    let two = TwoDStructures {
        symbol: Symbol::EURUSD,
        structure: "Fair Value Gap",
        timerange: MINUTE,
        timestamp: 0,
        high: 120,
        low: 110,
        direction: "bullish",
    };
    assert_eq!(add_two_d_structure(&mut db, &two), Ok(()));
    {
        let data = db.get("EUR/USD").unwrap();
        assert_eq!((data.sessions.len(), data.trends.len(), data.one_d_structure.len(), data.two_d_structure.len()), (1, 1, 1, 1));
    }
    init_database_data(&mut db, "EUR/USD");
    assert!(db.get("EUR/USD").unwrap().candles.is_empty());
    reset_database_data(&mut db, "EUR/USD");
    assert!(db.get("EUR/USD").is_none());
    assert_eq!(add_one_d_structure(&mut db, &one), Err("Symbol does not exist".to_string()));
    assert_eq!(add_two_d_structure(&mut db, &two), Err("Symbol does not exist".to_string()));
}

#[test]
fn token_claims_per_service() {
    let db = jwt_claims("database").unwrap();
    assert_eq!((db.subject, db.role, db.websocket_scope, db.database_scope, db.lifetime), ("temp", "admin", None, Some("admin"), 5));
    let ws = jwt_claims("websocket").unwrap();
    assert_eq!((ws.subject, ws.role, ws.websocket_scope, ws.database_scope, ws.lifetime), ("temp", "sender", Some("sender"), None, 5));
    assert!(jwt_claims("other").is_none());
}

#[test]
fn time_windows_wrap_past_midnight() {
    assert!(is_in_timerange(10, 20, 10));
    assert!(is_in_timerange(10, 20, 20));
    assert!(!is_in_timerange(10, 20, 21));
    assert!(is_in_timerange(79_200_000, 27_000_000, 0));
    assert!(is_in_timerange(79_200_000, 27_000_000, 27_000_000));
    assert!(!is_in_timerange(79_200_000, 27_000_000, 50_000_000));
}

#[test]
fn random_key_is_base64_of_sixteen_bytes() {
    let k = generate_rand_base64();
    assert_eq!(k.len(), 24);
    let bytes = general_purpose::STANDARD.decode(&k).unwrap();
    assert_eq!(bytes.len(), 16);
    assert!(k.ends_with("=="));
}

pub mod candle;
pub mod data;
pub mod direction;
pub mod symbol;
pub mod session;
pub mod structures;
pub mod timerange;
pub mod trend;

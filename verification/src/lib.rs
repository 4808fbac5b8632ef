//! Market-structure analysis on OHLC candles: candle aggregation per timerange,
//! trading sessions, fair value gaps, trends with breaks of structure and
//! changes of character, and the in-memory buffers that are flushed to the
//! database.
//!
//! Prices are fixed-point integers (ticks), volumes are unsigned integers and
//! instants are UTC milliseconds since the Unix epoch.
pub mod application;
pub mod connections;
pub mod domain;
pub mod handlers;
pub mod utils;

pub mod candle;
pub mod structures;

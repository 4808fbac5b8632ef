pub mod candle;
pub mod sessions;
pub mod structures;
pub mod trends;

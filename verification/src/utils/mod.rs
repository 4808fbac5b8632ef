pub mod time;
pub mod utils;

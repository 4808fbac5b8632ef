pub mod fvg;
pub mod session;
pub mod trend;

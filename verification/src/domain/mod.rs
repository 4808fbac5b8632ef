pub mod entities;
pub mod series;

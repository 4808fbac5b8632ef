pub mod consume;

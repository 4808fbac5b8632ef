pub mod auth;
pub mod database;

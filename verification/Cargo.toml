[package]
name = "trading_core"
version = "0.1.0"
edition = "2021"
publish = false

[dependencies]
base64 = "0.22"
rand = "0.9"
chrono = { version = "0.4", features = ["serde"] }
dashmap = "6"
once_cell = "1"
serde = { version = "1", features = ["derive"] }
serde_json = "1"
tokio = { version = "1", features = ["full"] }
tokio-scoped = "*"
tokio-tungstenite = "*"
futures-util = "*"
http = "1"
url = "2"
reqwest = { version = "*", default-features = false, features = ["json"] }
jsonwebtoken = "9"
polars = { version = "*", default-features = false, features = ["parquet", "rows", "dtype-datetime"] }

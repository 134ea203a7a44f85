[package]
name = "artie"
version = "0.1.0"
edition = "2021"
publish = false

[dependencies]
chrono = "0.4"
serde = { version = "1", features = ["derive"] }
serde_json = "1"
rusqlite = { version = "*", features = ["bundled"] }
tokio = { version = "1", features = ["full"] }
tokio-util = "0.7"
flate2 = "1"
blake3 = "1"
toml = "*"
tracing = "0.1"

[package]
name = "sylphie_database"
version = "0.1.0"
edition = "2021"
publish = false

[dependencies]
bincode = "1.3"
serde = "1"
serde_bytes = "0.11"
serde_cbor = "0.11"
futures = "0.3"
parking_lot = "0.12"
rusqlite = { version = "*", features = ["bundled"] }
serde_rusqlite = "*"
tokio = { version = "1", features = ["rt", "rt-multi-thread", "sync", "time"] }
tracing = "0.1"

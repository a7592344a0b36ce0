[package]
name = "card_ledger"
version = "0.1.0"
edition = "2021"
publish = false

[dependencies]
pcsc = "2"
serde_json = "1"
sqlx = { version = "0.8", default-features = false, features = ["sqlite", "runtime-tokio"] }
tokio = { version = "1", features = ["rt-multi-thread", "macros", "sync", "time", "io-util", "io-std"] }

[package]
name = "buzz_relay"
version = "0.1.0"
edition = "2021"
publish = false

[dependencies]
chrono = { version = "=0.4.45", default-features = false, features = ["std", "clock"] }
metrics = "=0.24.6"
nostr = "=0.44.8"
serde_json = "=1.0.154"
sqlx = { version = "=0.8.6", default-features = false, features = ["postgres", "runtime-tokio", "chrono", "uuid"] }
tokio = { version = "=1.54.1", features = ["sync"] }
tracing = "=0.1.44"
uuid = "=1.29.0"

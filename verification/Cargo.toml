[package]
name = "graphann"
version = "0.7.0"
edition = "2021"
publish = false

[dependencies]
bytes = "1"
flate2 = "1"
futures = "0.3"
lru = "0.12"
parking_lot = "0.12"
reqwest = { version = "0.12", default-features = false, features = ["gzip", "rustls-tls"] }
serde = { version = "1", features = ["derive"] }
serde_json = "1"
thiserror = "1"
tokio = { version = "1", features = ["rt-multi-thread", "sync", "time"] }
tracing = "0.1"
url = "2"

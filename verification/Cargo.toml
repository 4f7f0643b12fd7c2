[package]
name = "stsync_proxy"
version = "0.1.0"
edition = "2021"
publish = false

[dependencies]
rand = "=0.8.8"
tokio = { version = "=1.54.1", features = ["net", "rt-multi-thread", "macros", "time", "sync"] }
thiserror = "=1.0.69"
serde = { version = "=1.0.229", features = ["derive"] }
parking_lot = "0.12"
ahash = "0.8"
socket2 = "0.5"
tracing = "0.1"
bytes = "1"
futures = "0.3"

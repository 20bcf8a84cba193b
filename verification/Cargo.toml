[package]
name = "meetily"
version = "0.1.0"
edition = "2021"
publish = false

[dependencies]
chrono = "=0.4.45"
uuid = { version = "=1.29.0", features = ["v4"] }
serde = { version = "=1.0.229", features = ["derive"] }
serde_json = "=1.0.154"
anyhow = "=1.0.104"
dirs = "=5.0.1"
log = "=0.4.35"
tokio = { version = "=1.54.1", features = ["sync", "rt", "time", "macros"] }
ndarray = "=0.16.1"
ort = { version = "=2.0.0-rc.10", default-features = false, features = ["std", "ndarray", "load-dynamic"] }

[package]
name = "toxic_order_monitor"
version = "0.1.0"
edition = "2021"
publish = false

[dependencies]
anyhow = "=1.0.104"
base64 = "=0.22.1"
chrono = "=0.4.45"
serde = { version = "=1.0.229", features = ["derive"] }
serde_json = "=1.0.154"
reqwest = { version = "0.12", default-features = false, features = ["json"] }
tokio = { version = "1", default-features = false, features = ["rt", "time", "sync", "macros"] }

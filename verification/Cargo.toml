[package]
name = "notifi_printer"
version = "0.1.0"
edition = "2021"
publish = false

[dependencies]
chrono = "=0.4.45"
dotenvy = "=0.15.7"
futures-util = "=0.3.34"
native-tls = "=0.2.18"
reqwest = { version = "=0.13.5", features = ["json", "brotli", "gzip", "zstd"] }
serde = { version = "=1.0.229", features = ["derive"] }
serde_json = "=1.0.151"
tokio = { version = "=1.53.2", features = ["full"] }
tokio-tungstenite = { version = "=0.30.0", features = ["native-tls"] }
tokio-util = { version = "=0.7.19", features = ["rt"] }
tracing = "=0.1.44"
tracing-subscriber = "=0.3.23"

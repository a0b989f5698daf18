[package]
name = "rstreamer"
version = "0.1.0"
edition = "2021"
publish = false

[dependencies]
async-stream = "0.3"
axum = "0.6"
bytes = "1"
clap = { version = "4", features = ["derive"] }
futures = "0.3"
nokhwa = { version = "0.10", features = ["input-native"] }
rustc-hash = "2"
thiserror = "1"
tokio = { version = "1", features = ["full"] }
tokio-stream = { version = "0.1", features = ["sync"] }
tracing = "0.1"
tracing-subscriber = "0.3"

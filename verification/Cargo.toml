[package]
name = "live_reload"
version = "0.1.0"
edition = "2021"
publish = false

[dependencies]
axum = { version = "=0.6.20", features = ["ws"] }
tokio = { version = "=1.54.1", features = ["full"] }
tracing = "=0.1.44"

[dev-dependencies]
tungstenite = { version = "=0.20.1", default-features = false }

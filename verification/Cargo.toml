[package]
name = "ws_tunnel"
version = "0.1.0"
edition = "2021"
publish = false

[dependencies]
axum = { version = "0.7", features = ["ws"] }
clap = { version = "4", features = ["derive"] }
futures = "0.3"
log = "0.4"
parking_lot = "0.12"
tokio = { version = "1", features = ["full"] }
tokio-tungstenite = "0.24"
tracing-subscriber = "0.3"
uuid = { version = "1", features = ["v4"] }

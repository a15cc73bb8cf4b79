[package]
name = "agent"
version = "0.1.0"
edition = "2021"
publish = false

[dependencies]
bollard = "*"
tokio = { version = "*", features = ["full"] }
tokio-tungstenite = "*"
futures-util = "*"
clap = { version = "*", features = ["derive"] }
axum = "*"
tracing = "*"
tracing-subscriber = "*"

[package]
name = "dayax"
version = "0.1.0"
edition = "2021"
publish = false

[dependencies]
axum = "=0.6.20"
clap = { version = "=4.6.7", features = ["derive"] }
color-eyre = "=0.6.5"
eyre = "=0.6.14"
futures = "=0.3.34"
http = "=0.2.12"
http-body = "=0.4.6"
mime = "=0.3.17"
mlua = { version = "=0.8.10", features = ["lua54", "vendored", "serialize", "send"] }
serde = { version = "=1.0.229", features = ["derive"] }
serde_json = "=1.0.154"
signal-hook = "=0.3.18"
signal-hook-tokio = { version = "=0.3.1", features = ["futures-v0_3"] }
tokio = { version = "=1.54.1", features = ["full"] }
tracing = "=0.1.44"
tracing-subscriber = "=0.3.23"

[package]
name = "uquery"
version = "0.1.0"
edition = "2021"
publish = false

[dependencies]
arrow = "=60.0.0"
axum = "=0.8.9"
clap = { version = "=4.6.7", features = ["derive", "env"] }
duckdb = { version = "=1.20000.0", default-features = false }
serde = { version = "=1.0.229", features = ["derive"] }
serde_json = "=1.0.154"
tokio = { version = "=1.54.1", features = ["full"] }
tokio-util = { version = "=0.7.20", features = ["io", "io-util"] }
tower = "=0.5.3"
tower-http = { version = "=0.7.1", features = ["compression-full", "cors"] }
tracing = "=0.1.44"
tracing-subscriber = { version = "=0.3.23", features = ["env-filter"] }

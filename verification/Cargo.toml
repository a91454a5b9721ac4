[package]
name = "axvisor_control"
version = "0.1.0"
edition = "2021"
publish = false

[dependencies]
anyhow = "=1.0.104"
axum = "=0.8.9"
axvmconfig = { version = "=0.8.9", default-features = false }
reqwest = { version = "=0.12.28", default-features = false }
serde_json = "=1.0.154"
tokio = { version = "=1.54.1", features = ["rt", "time", "net"] }

[package]
name = "rust-scenedetect"
version = "0.1.0"
edition = "2021"
publish = false

[dependencies]
opencv = "*"
serde_json = "1"
thiserror = "1"
tracing = "0.1"
tracing-subscriber = { version = "0.3", features = ["env-filter"] }

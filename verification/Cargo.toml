[package]
name = "codex_lifecycle"
version = "0.1.0"
edition = "2021"
publish = false

[dependencies]
async-channel = "2"
serde = { version = "1", features = ["derive"] }
serde_json = "1"
tokio = { version = "1", features = ["macros", "rt", "sync", "time"] }
tokio-util = "0.7"
tracing = "0.1"

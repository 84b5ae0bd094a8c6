[package]
name = "codex_client"
version = "0.1.0"
edition = "2021"
publish = false

[dependencies]
anyhow = "1"
chrono = "0.4"
dirs = "*"
log = "0.4"
serde = { version = "1", features = ["derive"] }
serde_json = "1"
tauri = { version = "2", default-features = false }
tokio = { version = "1", features = ["sync", "process", "io-util", "rt", "rt-multi-thread", "macros"] }
uuid = { version = "1", features = ["v4"] }
which = "*"

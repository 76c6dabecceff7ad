[package]
name = "codex_acp"
version = "0.1.0"
edition = "2021"
publish = false

[dependencies]
uuid = { version = "*", features = ["v4"] }
tokio = { version = "*", features = ["rt", "sync", "macros"] }
serde_json = "*"
agent-client-protocol = "*"

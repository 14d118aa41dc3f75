[package]
name = "worlddecode"
version = "0.1.0"
edition = "2021"
publish = false

[dependencies]
serde_json = "*"
rusqlite = { version = "*", features = ["bundled"] }
anyhow = "*"
tracing = "*"
tracing-subscriber = { version = "*", features = ["env-filter"] }
tracing-tree = "*"

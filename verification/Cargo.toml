[package]
name = "codex"
version = "0.1.0"
edition = "2021"
publish = false

[dependencies]
semver = "1"
serde = { version = "1", features = ["derive"] }
serde_json = "1"
toml = "0.8"
thiserror = "1"
tokio = { version = "1", features = ["process", "io-util", "fs", "time", "rt", "rt-multi-thread", "sync", "macros"] }
futures-core = "0.3"
tracing = "0.1"
tempfile = "3"

[package]
name = "beardpilot"
version = "0.1.0"
edition = "2021"
publish = false

[dependencies]
serde = { version = "1", features = ["derive"] }
serde_json = "1"
ratatui = "0.29"
crossterm = { version = "0.28", features = ["event-stream"] }
tokio = { version = "1", features = ["rt-multi-thread", "macros", "sync", "process"] }
futures-util = "0.3"
reqwest = { version = "0.12", default-features = false, features = ["json", "stream"] }
url = "2"
schemars = "1"
thiserror = "2"
toml = "0.8"
dirs = "6"
ollama-rs = { version = "0.3", default-features = false, features = ["stream"] }
tracing = "0.1"
tracing-subscriber = { version = "0.3", features = ["env-filter"] }
tracing-appender = "0.2"

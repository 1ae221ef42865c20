[package]
name = "codex_bridge"
version = "0.1.0"
edition = "2021"
publish = false

[dependencies]
anyhow = "=1.0.104"
async-trait = "=0.1.92"
eventsource-stream = "=0.2.3"
futures = "=0.3.34"
reqwest = { version = "=0.12.28", default-features = false, features = ["json", "stream"] }
rmcp = { version = "=0.15.0", default-features = false, features = ["base64", "macros", "schemars", "server"] }
serde = { version = "=1.0.229", features = ["derive"] }
serde_json = "=1.0.154"
thiserror = "=2.0.21"
tokio = { version = "=1.54.1", features = ["fs", "io-util", "macros", "rt", "sync", "time"] }
tokio-util = { version = "=0.7.20", features = ["io"] }
tracing = "=0.1.44"
uuid = { version = "=1.29.0", features = ["v4"] }

[package]
name = "agent-runtime"
version = "0.1.0"
edition = "2021"
publish = false

[dependencies]
serde_json = "1"
serde = { version = "1", features = ["derive"] }
tokio = { version = "1", features = ["io-util", "macros", "net", "process", "rt", "sync", "time"] }
tokio-util = "0.7"
tempfile = "3"
prost = "0.14"
cpal = "0.15"
tracing = "0.1"

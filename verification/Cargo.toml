[package]
name = "ava-bot"
version = "0.1.0"
edition = "2021"
publish = false

[dependencies]
anyhow = "=1.0.104"
askama = "=0.16.1"
base64 = "=0.23.1"
clap = { version = "=4.6.7", features = ["derive"] }
comrak = { version = "=0.57.0", default-features = false, features = ["syntect-fancy"] }
dashmap = "=6.2.1"
futures-util = "=0.3.34"
llm-sdk = "=0.4.2"
salvo = { version = "=1.0.1", default-features = false, features = ["cookie", "server", "server-handle", "http1", "sse", "serve-static"] }
schemars = "=0.8.22"
serde = { version = "=1.0.229", features = ["derive"] }
serde_json = "=1.0.154"
time = { version = "=0.3.55", features = ["formatting"] }
tokio = { version = "=1.54.1", features = ["rt-multi-thread", "macros", "fs", "signal", "time", "sync"] }
tracing = "=0.1.44"
tracing-subscriber = { version = "=0.3.23", default-features = false, features = ["fmt"] }
uuid = { version = "=1.29.0", features = ["v4"] }

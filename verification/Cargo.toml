[package]
name = "tcp-over-ws-rust"
version = "0.1.0"
edition = "2021"
publish = false

[dependencies]
anyhow = "1"
bytes = "1"
clap = { version = "4", features = ["derive"] }
futures-util = { version = "0.3", features = ["sink"] }
prost = "0.13"
tokio = { version = "1", features = ["full"] }
tokio-stream = "0.1"
tokio-tungstenite = "0.26"
tonic = "0.12"
tracing = "0.1"
tracing-subscriber = "0.3"
trust-dns-resolver = "0.23"
url = "2"
uuid = { version = "1", features = ["v4"] }

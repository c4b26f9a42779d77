[package]
name = "async_patterns"
version = "0.1.0"
edition = "2021"
publish = false

[dependencies]
anyhow = "1"
async-native-tls = "0.5"
async-task = "4"
flume = "0.11"
futures-lite = "2"
http = "0.2"
hyper = { version = "0.14", features = ["client", "http1", "http2", "runtime"] }
mio = { version = "1", features = ["net", "os-poll"] }
rand = "0.8"
serde_json = "1"
smol = "2"
tokio = { version = "1", features = ["full"] }

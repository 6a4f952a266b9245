[package]
name = "wash_up"
version = "0.1.0"
edition = "2021"
publish = false

[dependencies]
semver = "=1.0.28"
anyhow = "=1.0.104"
async-nats = "=0.39.0"
clap = { version = "=4.6.7", features = ["derive", "env"] }
command-group = { version = "=5.0.1", features = ["with-tokio"] }
log = "=0.4.34"
reqwest = { version = "=0.13.5", default-features = false, features = ["stream"] }
serde_json = "=1.0.151"
tokio = { version = "=1.53.2", features = ["full"] }
tokio-stream = "=0.1.19"
tokio-util = { version = "=0.7.19", features = ["io"] }
wasmcloud-control-interface = "=3.0.1"

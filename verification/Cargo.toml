[package]
name = "tailnet_runtime"
version = "0.1.0"
edition = "2021"
publish = false

[dependencies]
portable-atomic = { version = "=1.15.0", features = ["fallback"] }
ipnet = "=2.12.2"
defguard_wireguard_rs = "=0.7.8"
kameo = "=0.22.2"
tokio = { version = "=1.54.1", features = ["rt-multi-thread", "macros", "sync", "time"] }
tracing = "=0.1.44"
tracing-subscriber = { version = "=0.3.23", features = ["env-filter"] }
serde_json = "=1.0.154"
clap = { version = "=4.6.7", features = ["derive", "env"] }
url = "2"

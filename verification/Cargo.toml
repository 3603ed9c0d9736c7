[package]
name = "slider_io"
version = "0.1.0"
edition = "2021"
publish = false

[dependencies]
serde_json = "=1.0.154"
async-trait = "=0.1.92"
atomic_float = "*"
futures = "=0.3.34"
hyper = { version = "=0.14.32", features = ["full"] }
log = "=0.4.34"
tokio = { version = "=1.54.1", features = ["full"] }
tokio-tungstenite = "=0.20.1"
tungstenite = "=0.20.1"

[package]
name = "sandbox_driver_protocol"
version = "0.1.0"
edition = "2021"
publish = false

[dependencies]
base64 = "=0.22.1"
rand = "=0.9.5"
serde = { version = "=1.0.229", features = ["derive"] }
serde_json = "=1.0.154"
sha2 = "=0.10.9"
tokio = { version = "=1.54.1", features = ["rt", "sync", "net", "io-util", "io-std", "time", "process", "macros", "fs"] }
tokio-util = { version = "=0.7.20", features = ["rt"] }
tracing = "=0.1.44"
async-trait = "=0.1.92"

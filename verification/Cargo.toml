[package]
name = "runc"
version = "0.1.0"
edition = "2021"
publish = false

[dependencies]
chrono = { version = "0.4", features = ["serde"] }
futures = "0.1"
libc = "0.2"
log = "0.4"
mio = "0.6"
mio-uds = "0.6"
serde = { version = "1", features = ["derive"] }
serde_json = "1"
tokio = "0.1"
tokio-process = "0.2"
uuid = { version = "0.8", features = ["v4"] }

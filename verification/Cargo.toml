[package]
name = "loopr"
version = "0.1.0"
edition = "2021"
publish = false

[dependencies]
chrono = "0.4"
eyre = "0.6"
libc = "0.2"
log = "0.4"
serde = { version = "1", features = ["derive"] }
serde_json = "1"
tokio = { version = "1", features = ["full"] }
tracing = "0.1"

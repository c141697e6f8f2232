[package]
name = "aqualog"
version = "0.1.0"
edition = "2021"
publish = false

[dependencies]
anyhow = "1"
arrow = { version = "*", default-features = false, features = ["ipc"] }
object_store = "*"
tokio = { version = "1", features = ["sync", "macros", "rt", "rt-multi-thread", "time"] }
tokio-util = "0.7"
tracing = "0.1"

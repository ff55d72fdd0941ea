[package]
name = "tokio-cancel-guard"
version = "0.1.0"
edition = "2021"
publish = false

[dependencies]
pin-project = "1"
tokio = { version = "1", features = ["rt", "rt-multi-thread", "time", "macros"] }
tracing = "0.1"

[dev-dependencies]
tracing-subscriber = "0.3"

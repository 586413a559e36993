[package]
name = "lifeline"
version = "0.1.0"
edition = "2021"
publish = false

[dependencies]
futures = "0.3"
log = "0.4"
pin-project = "1"
tokio = { version = "1", features = ["rt", "rt-multi-thread", "sync", "time"] }

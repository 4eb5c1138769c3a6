[package]
name = "xdi"
version = "0.1.0"
edition = "2021"
publish = false

[dependencies]
ahash = "0.8"
anyhow = "1"
dashmap = "6"
inventory = "0.3"
parking_lot = "0.12"
thiserror = "2"
tokio = { version = "1", features = ["rt", "rt-multi-thread"] }

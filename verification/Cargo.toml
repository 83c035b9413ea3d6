[package]
name = "suitest"
version = "0.1.0"
edition = "2021"
publish = false

[dependencies]
tokio = { version = "1", features = ["rt", "rt-multi-thread"] }
futures-util = "0.3"

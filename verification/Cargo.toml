[package]
name = "repeated_assert"
version = "0.1.0"
edition = "2021"
publish = false

[dependencies]
futures = "*"
lazy_static = "*"
tokio = { version = "*", features = ["time"] }

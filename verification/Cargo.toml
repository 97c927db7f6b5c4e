[package]
name = "netio"
version = "0.1.0"
edition = "2021"
publish = false

[dependencies]
failure = "0.1"
tokio = { version = "0.2", features = ["rt-core", "time"] }

[package]
name = "buildforge"
version = "0.1.0"
edition = "2021"
publish = false

[dependencies]
anyhow = "1"
http-body-util = "0.1"
hyper = { version = "=1.12.0", features = ["client", "http1"] }
hyper-util = { version = "0.1", features = ["tokio"] }
tokio = { version = "1", features = ["rt", "net", "io-util", "macros"] }
tokio-native-tls = "0.3"
walkdir = "2"

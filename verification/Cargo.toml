[package]
name = "noise_transport"
version = "0.1.0"
edition = "2021"
publish = false

[dependencies]
futures = "0.3"
pin-project = "1"
serde = "1"
tokio = "1"
tokio-util = { version = "0.7", features = ["codec"] }

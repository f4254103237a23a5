[package]
name = "gateway"
version = "0.1.0"
edition = "2021"
publish = false

[dependencies]
rustls = "0.16"
tokio = { version = "1", features = ["net", "io-util", "rt-multi-thread", "macros"] }
futures = "0.3"
chrono = "0.4"

[package]
name = "signal_relay"
version = "0.1.0"
edition = "2021"
publish = false

[dependencies]
ethers = { version = "=2.0.14", default-features = false, features = ["rustls", "ws"] }
hex = "*"
tokio = { version = "*", features = ["rt-multi-thread", "macros", "sync"] }
futures-util = "*"
serde_json = "*"

[package]
name = "peer_connect"
version = "0.1.0"
edition = "2021"
publish = false

[dependencies]
bitcoin = "0.29"
rand = "0.8"
lightning = "0.0.112"
lightning-net-tokio = "0.0.112"
tokio = { version = "1", features = ["macros", "rt-multi-thread", "time", "net"] }
futures = "0.3"

[package]
name = "socks_tunnel"
version = "0.1.0"
edition = "2021"
publish = false

[dependencies]
anyhow = "1"
native-tls = "0.2"
tokio = { version = "1", features = ["io-util", "macros", "net", "rt-multi-thread"] }
tokio-native-tls = "0.3"

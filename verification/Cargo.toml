[package]
name = "ezsockets"
version = "0.1.0"
edition = "2021"
publish = false

[dependencies]
async-trait = "0.1"
chrono = "0.4"
eyre = "0.6"
futures = "0.3"
http = "0.2"
tokio = { version = "1", features = ["macros", "net", "rt", "rt-multi-thread", "sync", "time"] }
tokio-native-tls = "0.3"
tokio-rustls = "0.24"
tokio-tungstenite = "0.20"
tracing = "0.1"

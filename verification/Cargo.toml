[package]
name = "tls-listener"
version = "0.1.0"
edition = "2021"
publish = false

[dependencies]
tokio = { version = "1", features = ["net", "time", "rt", "io-util", "sync", "macros"] }
futures-util = "0.3"
pin-project-lite = "0.2"
thiserror = "2"
tracing = "0.1"
tokio-rustls = { version = "0.26", default-features = false }
tokio-native-tls = "0.3"
tokio-openssl = "0.6"
openssl = "0.10"
axum = { version = "0.8", default-features = false, features = ["tokio", "http1"] }

[package]
name = "bridge-daemon"
version = "0.1.0"
edition = "2021"
publish = false

[dependencies]
anyhow = "1"
matrix-sdk = { version = "=0.14.0", default-features = false, features = ["e2e-encryption", "sqlite", "rustls-tls"] }
serde = { version = "1", features = ["derive"] }
serde_json = "1"
tokio = { version = "1", features = ["rt-multi-thread", "macros", "net", "io-util", "sync", "time", "fs"] }
tracing = "0.1"
tracing-subscriber = { version = "0.3", default-features = false, features = ["fmt", "std"] }

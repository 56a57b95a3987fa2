[package]
name = "queuebot"
version = "0.1.0"
edition = "2021"
publish = false

[dependencies]
anyhow = "1"
dotenv = "0.15"
matrix-sdk = { version = "0.6", default-features = false, features = ["markdown", "native-tls"] }
regex = "1"
rspotify = { version = "0.12", features = ["cli"] }
tokio = { version = "1", features = ["macros", "rt-multi-thread"] }

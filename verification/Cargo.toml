[package]
name = "jito-block-engine-proxy-server"
version = "0.1.0"
edition = "2021"
publish = false

[dependencies]
axum = "0.6"
clap = { version = "4", features = ["derive", "env"] }
http = "0.2"
hyper = { version = "0.14", features = ["full"] }
reqwest = { version = "0.11", default-features = false, features = ["rustls-tls", "stream"] }
solana-sdk = "1"
tokio = { version = "1", features = ["full"] }

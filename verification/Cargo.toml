[package]
name = "proxy_core"
version = "0.1.0"
edition = "2021"
publish = false

[dependencies]
tokio = { version = "1", features = ["sync", "net", "io-util", "rt-multi-thread", "macros"] }
dotenv = "0.15"
serde = { version = "1", features = ["derive"] }
serde_json = "1"

[package]
name = "lcu_client"
version = "0.1.0"
edition = "2021"
publish = false

[dependencies]
anyhow = "1"
async-std = "1"
base64 = "0.13"
futures-util = "0.3"
http = "0.2"
native-tls = "0.2"
reqwest = { version = "0.11", default-features = false }
tokio = { version = "1", features = ["full"] }
tokio-tungstenite = { version = "0.18", features = ["native-tls"] }

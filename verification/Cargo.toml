[package]
name = "redwood"
version = "0.1.0"
edition = "2021"
publish = false

[dependencies]
actix = "0.13"
futures = "0.3"
hex = "0.4"
hmac = "0.12"
native-tls = "0.2"
reqwest = { version = "0.11", features = ["json"] }
serde = { version = "1", features = ["derive"] }
serde_json = "1"
sha2 = "0.10"
tokio = { version = "1", features = ["full"] }
tokio-tungstenite = { version = "0.17", features = ["native-tls"] }
url = "2"

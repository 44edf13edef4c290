[package]
name = "mould_client"
version = "0.1.0"
edition = "2021"
publish = false

[dependencies]
futures = "*"
serde = { version = "*", features = ["derive"] }
serde_json = "*"
tokio = { version = "*", features = ["io-util", "net", "rt"] }
tokio-tungstenite = "*"
tungstenite = "*"
url = "*"

[package]
name = "alpaca_finance"
version = "0.1.0"
edition = "2021"
publish = false

[dependencies]
serde_json = "*"
chrono = "*"
url = "*"
reqwest = { version = "*", default-features = false }
tokio = { version = "*", default-features = false, features = ["rt", "net", "time"] }
tokio-tungstenite = "*"
futures = "*"
futures-util = "*"

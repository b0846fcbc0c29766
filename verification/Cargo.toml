[package]
name = "tradewatch"
version = "0.1.0"
edition = "2021"
publish = false

[dependencies]
anyhow = "1"
async-channel = "*"
dotenv = "0.15"
futures-util = "0.3"
hex = "0.4"
serde_json = "1"
tokio = { version = "1", features = ["macros", "rt-multi-thread", "time", "sync", "net"] }
tokio-tungstenite = "*"
tracing = "0.1"
tracing-subscriber = "0.3"
url = "2"

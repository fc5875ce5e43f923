[package]
name = "strife"
version = "0.1.0"
edition = "2021"
publish = false

[dependencies]
serde = { version = "1", features = ["derive"] }
serde_json = "1"
tokio = { version = "1", features = ["full"] }
async-tungstenite = { version = "0.28", features = ["tokio-runtime", "tokio-native-tls"] }
futures-util = "0.3"
reqwest = { version = "0.11", features = ["json"] }
tokio-native-tls = "0.3"
tokio-stream = "0.1"
tracing = "0.1"
tracing-subscriber = "0.3"

[package]
name = "ws_gateway"
version = "0.1.0"
edition = "2021"
publish = false

[dependencies]
serde_json = "1"
uuid = { version = "1", features = ["v4"] }
tungstenite = "0.20"
tokio = { version = "1", features = ["macros", "rt-multi-thread"] }

[package]
name = "binggpt"
version = "0.1.0"
edition = "2021"
publish = false

[dependencies]
anyhow = "1"
colored = "2"
futures = "0.3"
gjson = "0.8"
rand = "0.8"
reqwest = "0.11"
rusqlite = "0.28"
rustyline = "11"
serde = { version = "1", features = ["derive"] }
serde_json = "1"
tokio = { version = "1", features = ["full"] }
tokio-tungstenite = { version = "0.18", features = ["native-tls"] }
utf8_slice = "1"
uuid = { version = "1", features = ["v4"] }

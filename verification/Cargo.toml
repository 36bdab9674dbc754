[package]
name = "asr_core"
version = "0.1.0"
edition = "2021"
publish = false

[dependencies]
base64 = "*"
flate2 = "*"
hound = "*"
serde_json = "*"
serde = { version = "*", features = ["derive"] }
reqwest = { version = "*", default-features = false, features = ["json", "multipart"] }
tokio = { version = "*", features = ["rt-multi-thread", "macros", "time", "sync", "net", "io-util"] }
tokio-tungstenite = "*"
futures-util = "*"

[package]
name = "speaky"
version = "0.1.0"
edition = "2021"
publish = false

[dependencies]
base64 = "*"
flate2 = "*"
hmac = "*"
sha2 = "*"
uuid = { version = "*", features = ["v4"] }
serde_json = "*"
serde = { version = "*", features = ["derive"] }
chrono = "*"
toml = "*"
directories = "*"
tokio = { version = "*", features = ["rt-multi-thread", "macros", "sync", "time", "fs", "io-util"] }
futures-util = "*"
reqwest = { version = "*", default-features = false, features = ["rustls-tls", "json", "multipart", "stream"] }
tokio-tungstenite = "*"

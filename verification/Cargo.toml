[package]
name = "danmaku_client"
version = "0.1.0"
edition = "2021"
publish = false

[dependencies]
brotli = "*"
bytes = "1"
flate2 = "1"
futures = "0.3"
serde = { version = "1", features = ["derive"] }
serde_json = "1"
tauri = { version = "2", default-features = false, features = ["wry"] }
tokio = { version = "1", features = ["macros", "net", "rt", "sync", "time"] }
tokio-util = { version = "0.7", features = ["codec"] }

[package]
name = "jm_downloader"
version = "0.1.0"
edition = "2021"
publish = false

[dependencies]
aes = "0.8"
base64 = "0.22"
image = "0.25"
md5 = "0.7"
serde = { version = "1", features = ["derive"] }
serde_json = "1"
tokio = { version = "1", features = ["sync", "rt", "rt-multi-thread", "time", "macros"] }
reqwest = { version = "0.12", default-features = false, features = ["cookies", "json"] }
reqwest-middleware = "0.4"
reqwest-retry = "0.7"

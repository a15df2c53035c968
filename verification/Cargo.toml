[package]
name = "weixin-ilink-sdk"
version = "0.1.0"
edition = "2021"
publish = false

[dependencies]
aes = "0.8"
ecb = { version = "0.1", features = ["alloc", "block-padding"] }
cipher = { version = "0.4", features = ["alloc", "block-padding"] }
base64 = "0.22"
hex = "0.4"
md-5 = "0.10"
rand = "*"
url = "2"
urlencoding = "2"
uuid = { version = "1", features = ["v4"] }
serde = { version = "1", features = ["derive"] }
serde_json = "1"
qrcode = { version = "*", default-features = false }
thiserror = "2"
chrono = "0.4"
parking_lot = "0.12"
tokio = { version = "1", features = ["time", "fs", "rt", "macros"] }
tokio-stream = "0.1"
tracing = "0.1"
reqwest = { version = "0.12", default-features = false }
http = "1"
libsql = { version = "*", default-features = false, features = ["core", "remote", "replication"] }
silk-codec = "*"

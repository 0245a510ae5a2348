[package]
name = "mendimaru"
version = "0.1.0"
edition = "2021"
publish = false

[dependencies]
base64 = "=0.22.1"
hmac = "=0.12.1"
sha2 = "=0.10.9"
chrono = "=0.4.45"
percent-encoding = "=2.3.2"
getrandom = "=0.3.4"
serde = { version = "=1.0.229", features = ["derive"] }
serde_json = "=1.0.154"
walkdir = "=2.5.0"
regex = "1"
tokio = { version = "1", features = ["rt", "net", "time", "io-util", "fs", "sync"] }
reqwest = { version = "0.12", default-features = false, features = ["stream"] }
futures-util = "0.3"
zeroize = "1"
libc = "0.2"
fs2 = "0.4"

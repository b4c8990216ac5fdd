[package]
name = "io_gmail"
version = "0.1.0"
edition = "2021"
publish = false

[dependencies]
anyhow = "=1.0.104"
base64 = "=0.23.1"
io-http = "=0.5.0"
log = "=0.4.35"
pimalaya-stream = { version = "=0.3.0", default-features = false }
secrecy = "=0.10.3"
serde = { version = "=1.0.229", features = ["derive"] }
serde_json = { version = "=1.0.154", features = ["raw_value"] }
thiserror = "=2.0.21"
url = "=2.5.8"

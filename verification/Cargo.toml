[package]
name = "slipstream"
version = "0.1.0"
edition = "2021"
publish = false

[dependencies]
serde_json = "=1.0.154"
url = "=2.5.8"
base64 = "=0.22.1"
sha2 = "=0.10.9"
hex = "=0.4.3"
shell-words = "=1.1.1"
chrono = "=0.4.45"
anyhow = "=1.0.104"
log = "=0.4.35"
dirs = "=5.0.1"
uuid = { version = "=1.29.0", features = ["v4"] }
os_info = "=3.15.0"
reqwest = { version = "0.12", default-features = false, features = ["blocking", "rustls-tls"] }

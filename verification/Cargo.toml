[package]
name = "code_buddy"
version = "0.1.0"
edition = "2021"
publish = false

[dependencies]
urlencoding = "=2.1.3"
uuid = { version = "=1.29.0", features = ["v4"] }
nanoid = "=0.4.0"
chrono = "=0.4.45"
serde = { version = "=1.0.229", features = ["derive"] }
serde_json = "=1.0.154"
serde_yaml = "=0.9.34"
anyhow = "=1.0.104"
mime_guess = "=2.0.5"
base64 = "=0.22.1"
url = "=2.5.8"
dirs = "6"

[package]
name = "dorion"
version = "0.1.0"
edition = "2021"
publish = false

[dependencies]
regex = "=1.13.1"
urlencoding = "=2.1.3"
base64 = "=0.21.7"
serde = { version = "=1.0.229", features = ["derive"] }
serde_json = "=1.0.154"
gumdrop = "=0.8.1"
dirs = "=5.0.1"
pico-args = "=0.5.0"
reqwest = { version = "=0.12.28", default-features = false, features = ["blocking", "rustls-tls"] }
livesplit-hotkey = "0.8"
chrono = "0.4"

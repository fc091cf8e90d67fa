[package]
name = "lotion"
version = "0.1.0"
edition = "2021"
publish = false

[dependencies]
aes-gcm = "0.10"
base64 = "0.22"
dirs = "5"
env_logger = "0.11"
log = "0.4"
pbkdf2 = "0.12"
rand = "0.8"
rand_core = { version = "0.6", features = ["getrandom"] }
serde = { version = "1", features = ["derive"] }
serde_json = "1"
sha2 = "0.10"
tokio = { version = "1", features = ["sync", "rt"] }
toml = "0.8"
url = "2"
uuid = { version = "1", features = ["v4"] }

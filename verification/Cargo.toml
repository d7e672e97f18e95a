[package]
name = "keystone_verified"
version = "0.1.0"
edition = "2021"
publish = false

[dependencies]
base64 = "0.22"
bcrypt = "*"
chrono = "0.4"
pbkdf2 = { version = "0.12", features = ["simple"] }
password-hash = { version = "0.5", features = ["getrandom"] }
rand = "0.9"
regex = "1"
scrypt = "0.11"
serde = { version = "1", features = ["derive"] }
serde_json = "1"
sha2 = "0.10"
thiserror = "2"
tokio = { version = "1", features = ["rt-multi-thread", "macros", "sync"] }
uuid = { version = "1", features = ["v4", "v5"] }

[package]
name = "vegar"
version = "0.1.0"
edition = "2021"
publish = false

[dependencies]
argon2 = { version = "=0.5.3", features = ["std"] }
data-encoding = "=2.11.1"
rand = "=0.9.5"
regex = "=1.13.1"
chrono = "=0.4.45"
url = "=2.5.8"
mime_guess = "=2.0.5"
serde = { version = "=1.0.229", features = ["derive"] }
serde_json = { version = "=1.0.154", features = ["preserve_order"] }
jsonwebtoken = "=9.3.1"
cuid = "=1.3.3"
config = "=0.14.1"
validator = "=0.20.0"

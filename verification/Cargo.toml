[package]
name = "hermes"
version = "0.1.0"
edition = "2021"
publish = false

[dependencies]
base64 = "=0.22.1"
sha2 = "=0.10.9"
rand = "=0.10.3"
uuid = { version = "=1.29.0", features = ["v7"] }
time = { version = "=0.3.55", features = ["parsing", "formatting"] }
url = "=2.5.8"
indexmap = "=2.14.2"
serde = { version = "=1.0.229", features = ["derive"] }
serde_json = "=1.0.154"
validator = "=0.21.0"
nanoid = "=0.5.0"
jsonwebtoken = "9"
ed25519-dalek = { version = "2", features = ["pkcs8", "pem"] }

[package]
name = "convshare"
version = "0.1.0"
edition = "2021"
publish = false

[dependencies]
serde = { version = "=1.0.229", features = ["derive"] }
serde_json = "=1.0.151"
jsonwebtoken = { version = "=11.1.0", features = ["rust_crypto"] }
uuid = { version = "=1.27.0", features = ["v4"] }
pulldown-cmark = "=0.13.4"

[dev-dependencies]
base64 = "=0.22.1"
rand = "=0.8.8"
rsa = "=0.9.10"

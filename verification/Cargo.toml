[package]
name = "listen_kit"
version = "0.1.0"
edition = "2021"
publish = false

[dependencies]
jsonwebtoken = "9"
base64 = "0.22"
serde = { version = "1", features = ["derive"] }
serde_json = "1"
reqwest = { version = "0.12", features = ["json"] }
tokio = { version = "1", features = ["macros", "rt-multi-thread"] }

[dev-dependencies]
p256 = { version = "0.13", features = ["ecdsa", "pem", "pkcs8"] }
rand_core = { version = "0.6", features = ["getrandom"] }

[package]
name = "nda_backend"
version = "0.1.0"
edition = "2021"
publish = false

[dependencies]
aes-gcm = "*"
base64 = "*"
rand = "0.8"
uuid = { version = "1", features = ["v4"] }
reqwest = { version = "*", default-features = false, features = ["json"] }
axum = "*"
tokio = { version = "1", features = ["macros", "rt-multi-thread", "net", "time"] }
tower-http = { version = "*", features = ["cors"] }
tracing-subscriber = "*"
serde = { version = "1", features = ["derive"] }
serde_json = "1"
chrono = "*"
sha2 = "*"
ed25519-dalek = "2"
stellar-strkey = "*"

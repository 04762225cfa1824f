[package]
name = "argo_access"
version = "0.1.0"
edition = "2021"
publish = false

[dependencies]
base64 = "0.22"
crypto_box = "0.9"
x25519-dalek = { version = "2", features = ["static_secrets"] }
rand_core = { version = "0.6", features = ["getrandom"] }
serde = { version = "1", features = ["derive"] }
serde_json = "1"
reqwest = { version = "0.12", default-features = false, features = ["json"] }
tokio = { version = "1", features = ["rt", "macros", "time"] }

[package]
name = "bank_auth"
version = "0.1.0"
edition = "2021"
publish = false

[dependencies]
base64 = "0.22"
rsa = { version = "0.9", features = ["sha2", "getrandom"] }
serde_json = "1"
serde = { version = "1", features = ["derive"] }
axum = "0.7"
axum-extra = { version = "0.9", features = ["typed-header"] }
tokio = { version = "1", features = ["macros", "rt-multi-thread", "net"] }
reqwest = { version = "0.12", default-features = false, features = ["json"] }
async-trait = "0.1"
strum = "0.26"
strum_macros = "0.26"

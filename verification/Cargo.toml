[package]
name = "gh_relay"
version = "0.1.0"
edition = "2021"
publish = false

[dependencies]
serde_json = "*"
hmac = "*"
sha2 = "*"
axum = "*"
tokio = { version = "*", features = ["full"] }
serenity = "*"

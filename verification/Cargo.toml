[package]
name = "konbini-core"
version = "0.1.0"
edition = "2021"
publish = false

[dependencies]
aes-gcm = "=0.10.3"
uuid = { version = "=1.29.0", features = ["v4"] }
serde = { version = "=1.0.229", features = ["derive"] }
axum = "=0.7.9"
tokio = { version = "=1.54.1", features = ["full"] }
dotenvy = "=0.15.7"
libsql = { version = "=0.10.0", default-features = false, features = ["remote"] }

[dev-dependencies]
hex = "=0.4.3"

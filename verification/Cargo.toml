[package]
name = "steamboard"
version = "0.1.0"
edition = "2021"
publish = false

[dependencies]
aes-gcm = "=0.10.3"
argon2 = "=0.5.3"
base64 = "=0.23.1"
csv = "=1.4.0"
serde = { version = "*", features = ["derive"] }
serde_json = "*"
serde_with = "*"
reqwest = { version = "*", default-features = false, features = ["json", "rustls-tls"] }
tokio = { version = "*", features = ["full"] }
tokio-rusqlite = "*"
keyring = "*"
directories = "*"
futures = "*"

[package]
name = "mc_oauth"
version = "0.1.0"
edition = "2021"
publish = false

[dependencies]
bytes = "1"
rsa = "0.9"
aes = "0.8"
cfb8 = "0.8"
sha1 = "0.10"
num-bigint = "0.4"
rand = "0.8"
base64_light = "*"
uuid = "1"
anyhow = "1"
tokio = { version = "1", features = ["full"] }
actix-web = "4"
serde = { version = "1", features = ["derive"] }
serde_json = "1"
toml = "0.8"
reqwest = { version = "0.12", default-features = false, features = ["rustls-tls"] }
tracing = "0.1"
tracing-subscriber = "0.3"

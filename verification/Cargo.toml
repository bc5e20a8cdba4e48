[package]
name = "orosu"
version = "0.7.0"
edition = "2021"
publish = false

[dependencies]
anyhow = "=1.0.104"
axum = { version = "=0.8.9", features = ["ws"] }
axum-client-ip = "=1.3.1"
base64 = "=0.22.1"
bytes = "=1.12.1"
chacha20poly1305 = "=0.10.1"
chrono = { version = "=0.4.45", features = ["serde"] }
cidr = { version = "=0.3.2", features = ["serde"] }
clap = { version = "=4.6.7", features = ["derive", "env"] }
dotenvy = "=0.15.7"
ed25519-dalek = { version = "=2.2.0", features = ["rand_core", "pkcs8"] }
futures-util = { version = "=0.3.34", features = ["sink"] }
hkdf = "=0.12.4"
jsonwebtoken = { version = "=10.4.0", features = ["rust_crypto"] }
md5 = "=0.8.1"
rkyv = "=0.8.18"
serde = { version = "=1.0.229", features = ["derive"] }
serde_json = { version = "=1.0.154", features = ["raw_value"] }
serde-saphyr = "=2.0.0"
sha2 = "=0.10.9"
tempfile = "=3.27.0"
tokio = { version = "=1.54.1", features = ["full"] }
tokio-tungstenite = "=0.30.0"
tracing = "=0.1.44"
tracing-subscriber = "=0.3.23"
users = "=0.11.0"
x25519-dalek = { version = "=2.0.1", features = ["static_secrets", "getrandom"] }
zip = { version = "=9.2.2", default-features = false, features = ["deflate"] }

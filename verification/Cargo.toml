[package]
name = "wcore-config"
version = "0.1.0"
edition = "2021"
publish = false

[dependencies]
anyhow = "1"
argon2 = "0.5"
async-trait = "0.1"
base64 = "0.22"
chacha20poly1305 = "0.10"
dirs = "5"
glob = "0.3"
keyring = "3"
parking_lot = "0.12"
rand = "0.8"
rpassword = "7"
serde = { version = "1", features = ["derive"] }
serde_ignored = "0.1"
serde_json = "1"
serde_yaml = "0.9"
tempfile = "3"
thiserror = "1"
tokio = { version = "1", features = ["process", "time", "rt", "io-util", "macros"] }
toml = "0.8"
tracing = "0.1"
zeroize = "1"

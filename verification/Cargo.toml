[package]
name = "zerosum"
version = "2.0.0"
edition = "2021"
publish = false

[dependencies]
anyhow = "1"
argon2 = "0.5"
bincode = "1.3"
chacha20poly1305 = "0.10"
chrono = "0.4"
clap = { version = "4", features = ["derive"] }
crossterm = "0.28"
curve25519-dalek = "4"
dirs = "*"
ed25519-dalek = { version = "2", features = ["rand_core"] }
futures = "0.3"
hkdf = "0.12"
libc = "0.2"
rand = "0.8"
ratatui = "0.29"
rpassword = "7"
rusqlite = { version = "*", features = ["bundled"] }
serde = { version = "1", features = ["derive"] }
serde_json = "1"
sha2 = "0.10"
thiserror = "1"
tokio = { version = "1", features = ["full"] }
tokio-socks = "0.5"
tracing = "0.1"
tracing-subscriber = { version = "0.3", features = ["env-filter"] }
x25519-dalek = { version = "2", features = ["static_secrets"] }
zeroize = "1"

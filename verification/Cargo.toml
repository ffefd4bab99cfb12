[package]
name = "hardclaw"
version = "0.1.0"
edition = "2021"
publish = false

[dependencies]
anyhow = "1"
bincode = "1"
bip39 = "2"
blake3 = "1"
dirs = "5"
ed25519-dalek = "2"
hex = "0.4"
ml-dsa = "*"
pqcrypto-hqc = "*"
pqcrypto-traits = "*"
rand = "0.8"
serde = { version = "1", features = ["derive"] }
serde_json = "1"
sha2 = "0.10"
thiserror = "1"
tokio = { version = "1", features = ["rt-multi-thread", "macros", "net", "io-util", "sync", "time"] }
toml = "0.8"
tracing = "0.1"
tracing-subscriber = "0.3"
zeroize = "1"

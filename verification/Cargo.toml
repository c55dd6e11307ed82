[package]
name = "lockswap"
version = "0.1.0"
edition = "2021"
publish = false

[dependencies]
ckb-jsonrpc-types = "=1.2.1"
ckb-sdk = "=5.1.0"
ckb-types = "=1.1.4"
clap = "=4.6.7"
eyre = "=0.6.14"
hex = "=0.4.3"
secp256k1 = "=0.30.0"
serde = { version = "=1.0.229", features = ["derive"] }
serde_json = "=1.0.151"
toml = "=0.5.11"

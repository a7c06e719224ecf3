[package]
name = "solana_utils"
version = "0.1.0"
edition = "2021"
publish = false

[dependencies]
borsh = "=1.8.1"
eyre = "=0.6.14"
lazy_static = "=1.5.1"
solana-commitment-config = "*"
solana-sdk = "=5.0.0"
spl-associated-token-account = "=8.0.0"

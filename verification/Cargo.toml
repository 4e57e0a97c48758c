[package]
name = "crypto_mapp"
version = "0.1.0"
edition = "2021"
publish = false

[dependencies]
spl-associated-token-account = "=8.0.0"
solana-pubkey = "=3.0.0"

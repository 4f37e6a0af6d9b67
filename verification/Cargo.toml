[package]
name = "omnipair"
version = "0.1.0"
edition = "2021"
publish = false

[dependencies]
ahash = "0.8"
anchor-lang = "0.32"
async-trait = "0.1"
solana-account = { version = "2.2", features = ["bincode"] }
solana-instruction = "2.2"
solana-pubkey = { version = "2.2", features = ["curve25519"] }
solana-sdk-ids = "2.2"
solana-sysvar = { version = "2.2", features = ["bincode"] }

[package]
name = "burn_bridge"
version = "0.1.0"
edition = "2021"
publish = false

[dependencies]
anchor-lang = "*"
solana-program = "*"
sha2 = "*"
sha3 = "*"

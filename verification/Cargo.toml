[package]
name = "shaga"
version = "0.1.0"
edition = "2021"
publish = false

[dependencies]
anchor-lang = "0.26"
solana-program = "1.14"
clockwork-sdk = "=1.4.2"

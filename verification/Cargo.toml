[package]
name = "message_store"
version = "0.1.0"
edition = "2021"
publish = false

[dependencies]
bincode = "1.3.3"
solana-program = "1.18"

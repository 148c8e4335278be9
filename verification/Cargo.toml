[package]
name = "subscription"
version = "0.1.0"
edition = "2021"
publish = false

[dependencies]
solana-program = "=5.1.0"
solana-zero-copy = "=1.3.0"
spl-tlv-account-resolution = "=0.11.4"
spl-transfer-hook-interface = "=2.1.0"

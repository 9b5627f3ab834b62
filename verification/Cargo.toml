[package]
name = "bubblegum_client"
version = "0.1.0"
edition = "2021"
publish = false

[dependencies]
mpl-bubblegum = "=1.4.0"
solana-sdk = "=1.18.26"
solana-program = "=1.18.26"

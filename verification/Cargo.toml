[package]
name = "serum_swap_client"
version = "0.1.0"
edition = "2021"
publish = false

[dependencies]
serum_dex = "*"
solana-program = "1"
spl-token = "3"

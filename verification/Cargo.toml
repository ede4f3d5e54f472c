[package]
name = "matrix_system"
version = "0.1.0"
edition = "2021"
publish = false

[dependencies]
spl-token = "*"
solana-program = "*"
chainlink_solana = "*"

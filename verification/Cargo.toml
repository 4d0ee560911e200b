[package]
name = "token_metadata"
version = "0.1.0"
edition = "2021"
publish = false

[dependencies]
bytemuck = { version = "1", features = ["derive"] }
pinocchio = "*"
pinocchio-system = "*"
pinocchio-token = "*"
pinocchio-token-2022 = "*"
solana-address = "*"

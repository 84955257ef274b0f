[package]
name = "pinocchio_amm"
version = "0.1.0"
edition = "2021"
publish = false

[dependencies]
pinocchio = { version = "=0.11.2", features = ["cpi"] }
pinocchio-token = "=0.7.0"
pinocchio-system = "=0.6.1"
solana-pubkey = { version = "=4.4.0", features = ["sha2", "curve25519"] }

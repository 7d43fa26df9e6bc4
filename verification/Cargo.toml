[package]
name = "solana_challenges"
version = "0.1.0"
edition = "2021"
publish = false

[dependencies]
anchor-lang = "0.31"
borsh = "0.10"
pinocchio = "0.9"
pinocchio-system = "0.3"

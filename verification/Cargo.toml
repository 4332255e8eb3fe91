[package]
name = "cp_amm_client"
version = "0.1.0"
edition = "2021"
publish = false

[dependencies]
ruint = "1"
anyhow = "1"
thiserror = "1"
num-derive = "0.4"
num-traits = "0.2"
borsh = { version = "1", features = ["derive"] }
solana-program = "2"

[package]
name = "bonding_curve"
version = "0.1.0"
edition = "2021"
publish = false

[dependencies]
borsh = "0.10"
mpl-token-metadata = "4.1"
solana-program = "1.18"
spl-associated-token-account = { version = "3", features = ["no-entrypoint"] }
spl-token = { version = "4", features = ["no-entrypoint"] }
thiserror = "1"

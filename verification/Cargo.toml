[package]
name = "cashlink"
version = "0.1.0"
edition = "2021"
publish = false

[dependencies]
solana-program = "=1.17.14"
spl-token = { version = "=4.0.0", features = ["no-entrypoint"] }
spl-associated-token-account = { version = "=2.3.0", features = ["no-entrypoint"] }
spl-memo = { version = "=4.0.0", features = ["no-entrypoint"] }
bs58 = "=0.4.0"
borsh = "=0.10.4"
thiserror = "=1.0.69"

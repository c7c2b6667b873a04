[package]
name = "gfx_task"
version = "0.1.0"
edition = "2021"
publish = false

[dependencies]
solana-program = "=5.1.0"
spl-associated-token-account = "=8.0.0"

[dev-dependencies]
solana-pubkey = "=3.0.0"

[package]
name = "transfer_tokens"
version = "0.1.0"
edition = "2021"
publish = false

[dependencies]
anchor-lang = { version = "=0.31.2", features = ["init-if-needed"] }
anchor-spl = "=0.31.2"
anyhow = "1"
solana-program = "2"
spl-associated-token-account = "=6.0.0"
spl-token = "=7.0.0"
tokio = { version = "1", features = ["macros", "rt-multi-thread"] }

[package]
name = "solana_programs"
version = "0.1.0"
edition = "2021"
publish = false

[dependencies]
pinocchio = { version = "=0.12.0", features = ["cpi"] }
pinocchio-system = "=0.7.0"
pinocchio-log = "=0.5.1"
borsh = { version = "=1.8.1", features = ["derive"] }
solana-program = "=2.3.0"
spl-token-2022 = "=8.0.1"
spl-associated-token-account = "=7.0.0"
spl-token-metadata-interface = "=0.7.0"
anchor-lang = "0.32"
anchor-spl = { version = "0.32", features = ["token_2022", "token_2022_extensions", "associated_token"] }

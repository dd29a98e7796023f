[package]
name = "hh_markets"
version = "0.1.0"
edition = "2021"
publish = false

[dependencies]
anchor-lang = "0.28.0"
anchor-spl = "0.28.0"
solana-program = "1.16"
spl-token = "3.5"
switchboard-v2 = "0.4.0"

[dev-dependencies]
borsh = "0.10"

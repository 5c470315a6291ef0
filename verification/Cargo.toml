[package]
name = "swifey"
version = "0.1.0"
edition = "2021"
publish = false

[dependencies]
anchor-lang = { version = "=0.29.0", features = ["init-if-needed", "event-cpi"] }
anchor-spl = { version = "=0.29.0", features = ["metadata"] }
raydium-amm-v3 = { version = "=0.1.0", features = ["cpi"] }
# Held back for anchor-spl and raydium-amm-v3, which ask for any 4.0 of
# these two: the later patches are built on another solana-program and do
# not compile beside anchor 0.29.
spl-memo = "=4.0.0"
spl-token = "=4.0.0"

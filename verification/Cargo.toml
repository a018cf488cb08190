[package]
name = "task_engine"
version = "0.1.0"
edition = "2021"
publish = false

[dependencies]
anchor-lang = "=0.26.0"
anchor-spl = "=0.26.0"
clockwork-sdk = "=1.4.2"
solana-sdk = "=1.18.26"

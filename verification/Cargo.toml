[package]
name = "pumpfun"
version = "0.1.0"
edition = "2021"
publish = false

[dependencies]
solana-rpc-client-api = "=3.1.14"
solana-pubsub-client = "=3.1.14"
serde_json = "1"

[package]
name = "rebalancer-admin"
version = "0.1.0"
edition = "2021"
publish = false

[dependencies]
soroban-sdk = "23.4.0"
stellar-tokens = "0.6.0"

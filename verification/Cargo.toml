[package]
name = "proof_of_heart"
version = "0.1.0"
edition = "2021"
publish = false

[dependencies]
soroban-sdk = "20.1.0"

[package]
name = "universe_store"
version = "0.1.0"
edition = "2021"
publish = false

[dependencies]
near-sdk = "2.0"
borsh = "0.7"
wee_alloc = "0.4"

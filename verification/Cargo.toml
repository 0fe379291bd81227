[package]
name = "jit_maker"
version = "0.1.0"
edition = "2021"
publish = false

[dependencies]
solana-program = "1.18.26"

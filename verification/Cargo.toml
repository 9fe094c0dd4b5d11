[package]
name = "stark_verifier"
version = "0.1.0"
edition = "2021"
publish = false

[dependencies]
winter-crypto = "0.9"
winter-fri = "0.9"
winter-math = "0.9"
winter-utils = "0.9"

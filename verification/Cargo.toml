[package]
name = "blind_tokens"
version = "0.1.0"
edition = "2021"
publish = false

[dependencies]
oberon = "*"
rand = "0.8"
neon = "*"

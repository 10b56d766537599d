[package]
name = "rgb_state"
version = "0.1.0"
edition = "2021"
publish = false

[dependencies]
strict_encoding = "*"

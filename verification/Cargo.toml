[package]
name = "crc_framework"
version = "0.1.0"
edition = "2021"
publish = false

[dependencies]
h3o = "*"
phf = { version = "0.11", features = ["macros"] }
rand = "0.9"

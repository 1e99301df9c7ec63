[package]
name = "cryptopals"
version = "0.1.0"
edition = "2021"
publish = false

[dependencies]
anyhow = "1"
once_cell = "1"
thiserror = "1"

[dev-dependencies]
base64 = "0.13"
hex = "0.4"

[package]
name = "kdf_boundary"
version = "0.1.0"
edition = "2021"

[dependencies]
argon2 = "*"

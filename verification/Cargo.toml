[package]
name = "sha3sum"
version = "0.1.0"
edition = "2021"

[dependencies]
sha3 = "*"
hex = "*"
clap = { version = "*", features = ["derive"] }

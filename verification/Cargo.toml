[package]
name = "imprev"
version = "0.1.0"
edition = "2021"
publish = false

[dependencies]
opencv = "*"
signal-hook = "*"
term_size = "*"

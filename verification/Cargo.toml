[package]
name = "rusted_ruins"
version = "0.1.0"
edition = "2021"
publish = false

[dependencies]
rand = "*"

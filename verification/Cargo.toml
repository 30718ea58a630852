[package]
name = "envfield"
version = "0.1.0"
edition = "2021"
publish = false

[dependencies]
libnoise = "=1.2.0"
fixed = "*"

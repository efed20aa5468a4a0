[package]
name = "kime_xim"
version = "0.1.0"
edition = "2021"
publish = false

[dependencies]
ahash = "*"
x11rb = "*"

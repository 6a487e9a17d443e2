[package]
name = "palantir"
version = "0.1.0"
edition = "2021"
publish = false

[dependencies]
rgb = "0.8"

[package]
name = "portfolio_reader"
version = "0.1.0"
edition = "2021"
publish = false

[dependencies]
stylus-sdk = "*"

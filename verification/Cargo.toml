[package]
name = "offerbook"
version = "0.1.0"
edition = "2021"
publish = false

[dependencies]
socks = "*"
serde_json = "*"

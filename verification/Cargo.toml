[package]
name = "happv"
version = "0.1.0"
edition = "2021"
publish = false

[dependencies]
hyper = "0.10"
serde_json = "*"

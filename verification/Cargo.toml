[package]
name = "fibrous"
version = "0.1.0"
edition = "2021"
publish = false

[dependencies]
ointers = "*"
futures-micro = "*"

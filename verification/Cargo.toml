[package]
name = "kotlin_instant"
version = "0.1.0"
edition = "2021"
publish = false

[dependencies]
uniffi = "*"

[package]
name = "realnum"
version = "0.1.0"
edition = "2021"
publish = false

[dependencies]
rand = "0.8"
rust_decimal = { version = "1", features = ["maths"] }

[package]
name = "quiche"
version = "0.3.0"
edition = "2021"
publish = false

[dependencies]
ring = "0.16"
rand_core = { version = "0.5", features = ["getrandom"] }

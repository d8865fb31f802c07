[package]
name = "p25rx"
version = "0.1.0"
edition = "2021"
publish = false

[dependencies]
pool = "=0.1.4"

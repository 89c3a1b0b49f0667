[package]
name = "adaptive_rate"
version = "0.1.0"
edition = "2021"
publish = false

[dependencies]
fixed = "1"
fixed-macro = "1"
rocket = "0.5"

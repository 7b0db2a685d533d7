[package]
name = "smart_string"
version = "0.1.0"
edition = "2021"
publish = false

[dependencies]
ahash = "*"
dashmap = "*"

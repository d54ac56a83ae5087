[package]
name = "inline_vec"
version = "0.1.0"
edition = "2021"
publish = false

[dependencies]
bolero-generator = { version = "=0.13.6", default-features = false }

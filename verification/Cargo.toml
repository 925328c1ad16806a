[package]
name = "rust_nam"
version = "0.1.0"
edition = "2021"
publish = false

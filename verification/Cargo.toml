[package]
name = "rust9x_sys"
version = "0.1.0"
edition = "2021"
publish = false

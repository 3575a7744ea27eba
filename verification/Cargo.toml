[package]
name = "prompt_theme"
version = "0.1.0"
edition = "2021"
publish = false

[dependencies]
crossterm = { version = "*", default-features = false }
lazy_static = "1.4"

[package]
name = "floating_window"
version = "0.1.0"
edition = "2021"
publish = false

[dependencies]
emath = { version = "*", default-features = false }
epaint = { version = "*", default-features = false }

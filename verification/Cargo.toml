[package]
name = "ascii_vision"
version = "0.1.0"
edition = "2021"
publish = false

[dependencies]
nokhwa = "*"
ratatui = "*"

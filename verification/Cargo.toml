[package]
name = "prize_wheel"
version = "0.1.0"
edition = "2021"
publish = false

[dependencies]
rand = "0.8"
ratatui = { version = "0.26", default-features = false }

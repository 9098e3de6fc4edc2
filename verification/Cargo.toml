[package]
name = "tundra"
version = "0.1.0"
edition = "2021"
publish = false

[dependencies]
bitvec = "1"
crossterm = "0.27"
ratatui = { version = "0.26", features = ["unstable-rendered-line-info"] }

[package]
name = "cargo_fill"
version = "0.1.0"
edition = "2021"
publish = false

[dependencies]
cargo_toml = "*"
crossbeam = "*"
promptly = "*"
toml = "*"

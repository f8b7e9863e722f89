[package]
name = "cargo_culture_kit"
version = "0.1.0"
edition = "2021"
publish = false

[dependencies]
cargo_metadata = "*"

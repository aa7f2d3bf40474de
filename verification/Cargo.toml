[package]
name = "compiler"
version = "0.1.0"
edition = "2021"
publish = false

[dependencies]
hex = "0.4"
tiny-keccak = "1"
rand = "0.8"
serde = { version = "1", features = ["derive"] }

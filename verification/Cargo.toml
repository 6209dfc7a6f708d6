[package]
name = "loosen"
version = "0.1.0"
edition = "2021"
publish = false

[dependencies]
quote = "0.6"
syn = { version = "0.15", features = ["full", "extra-traits"] }

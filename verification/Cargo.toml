[package]
name = "coldbrew"
version = "0.1.0"
edition = "2021"
publish = false

[dependencies]
clap = "4"
colored = "2"
toml = { version = "0.8", features = ["preserve_order"] }

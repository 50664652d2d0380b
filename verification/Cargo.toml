[package]
name = "bobbin_cli"
version = "0.1.0"
edition = "2021"
publish = false

[dependencies]
clap = { version = "2", default-features = false }
serde = { version = "1", features = ["derive"] }
toml = "0.5"

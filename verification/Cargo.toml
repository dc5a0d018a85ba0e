[package]
name = "tomlq"
version = "0.1.0"
edition = "2021"
publish = false

[dependencies]
toml = { version = "=0.8.23", features = ["preserve_order"] }
serde_json = "=1.0.151"
clap = { version = "=4.6.7", features = ["derive"] }
anyhow = "=1.0.104"

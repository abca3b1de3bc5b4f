[package]
name = "home_config"
version = "0.1.0"
edition = "2021"
publish = false

[dependencies]
dirs = "*"
serde = "*"
serde_json = "*"
serde_yaml = "*"
toml = "*"

[package]
name = "caffeine"
version = "0.1.0"
edition = "2021"
publish = false

[dependencies]
caffeine-cli = "=1.0.1"
serde_json = "1"

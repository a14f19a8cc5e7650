[package]
name = "zamm"
version = "0.1.0"
edition = "2021"
publish = false

[dependencies]
anyhow = "=1.0.104"
dirs = "=6.0.0"
path-absolutize = "=3.1.1"
serde = { version = "=1.0.229", features = ["derive"] }
serde_yaml = "=0.9.34"
shellexpand = "=3.1.2"

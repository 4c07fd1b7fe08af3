[package]
name = "ngseed"
version = "0.1.0"
edition = "2021"
publish = false

[dependencies]
anyhow = "1"
clap = { version = "4", features = ["derive"] }
console = "*"
dialoguer = "*"
indicatif = "*"
serde_json = "1"

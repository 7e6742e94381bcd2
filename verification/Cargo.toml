[package]
name = "rustlab_presentations"
version = "0.1.0"
edition = "2021"
publish = false

[dependencies]
clap = { version = "*", features = ["derive"] }
crossterm = "*"
dotenvy = "*"
notify = "*"
serde = { version = "*", features = ["derive"] }
toml = "*"

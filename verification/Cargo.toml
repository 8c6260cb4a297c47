[package]
name = "second_brain"
version = "0.1.0"
edition = "2021"
publish = false

[dependencies]
anyhow = "*"
chrono = "*"
clap = { version = "*", features = ["derive"] }
dirs = "*"
serde = { version = "*", features = ["derive"] }
strum = "*"
strum_macros = "*"
thiserror = "*"
toml = "*"

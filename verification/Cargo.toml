[package]
name = "eww_mixer"
version = "0.1.0"
edition = "2021"
publish = false

[dependencies]
anyhow = "*"
clap = { version = "*", features = ["derive"] }
libpulse-binding = "*"
md5 = "*"
serde = { version = "*", features = ["derive"] }
serde_json = "*"

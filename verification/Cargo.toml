[package]
name = "remindme"
version = "0.1.0"
edition = "2021"
publish = false

[dependencies]
anyhow = "*"
chrono = "*"
clap = { version = "*", features = ["derive"] }
crossterm = "*"
dirs = "*"
notify-rust = "*"
ratatui = "*"
rodio = "*"
serde = { version = "*", features = ["derive"] }
serde_json = "*"
shellexpand = "*"
uuid = { version = "*", features = ["v4"] }

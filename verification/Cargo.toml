[package]
name = "terman_tmux"
version = "0.1.0"
edition = "2021"
publish = false

[dependencies]
clap = { version = "4", features = ["derive"] }
crossterm = "*"
interprocess = "2"
portable-pty = "*"
serde = { version = "1", features = ["derive"] }
serde_json = "1"
unicode-width = "*"

[package]
name = "snes_core"
version = "0.1.0"
edition = "2021"
publish = false

[dependencies]
ahash = "*"
clap = { version = "*", features = ["derive"] }
color-eyre = "*"
crossterm = "*"
log = "*"
pretty_env_logger = "*"
ratatui = "*"
tui-input = "*"

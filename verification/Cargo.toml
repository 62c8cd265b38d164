[package]
name = "powereg"
version = "0.1.0"
edition = "2021"
publish = false

[dependencies]
clap = { version = "*", features = ["derive"] }
libc = "*"
udev = "*"
serde = { version = "*", features = ["derive"] }
toml = "*"
crossterm = "*"
ratatui = "*"
color-eyre = "*"

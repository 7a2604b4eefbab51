[package]
name = "taskboard"
version = "0.1.0"
edition = "2021"
publish = false

[dependencies]
crossterm = "0.28"
ratatui = "0.29"
libc = "0.2"
signal-hook = "0.3"

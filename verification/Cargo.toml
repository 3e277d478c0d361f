[package]
name = "diskg"
version = "0.1.0"
edition = "2021"
publish = false

[dependencies]
sysinfo = "=0.30.13"
dir-size = "=0.1.1"
size = "=0.4.1"
crossterm = "=0.27.0"
ratatui = "=0.26.3"

[dev-dependencies]
tempfile = "*"

[package]
name = "zam"
version = "0.1.0"
edition = "2021"
publish = false

[dependencies]
crossterm = "0.28"
dirs = "*"
ratatui = "0.29"
thiserror = "*"

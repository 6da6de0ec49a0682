[package]
name = "ratatui-intro"
version = "0.1.0"
edition = "2021"
publish = false

[dependencies]
ratatui = "0.23.0"
crossterm = "0.27.0"

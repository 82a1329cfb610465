[package]
name = "nm_wifi"
version = "0.1.0"
edition = "2021"
publish = false

[dependencies]
crossterm = "*"
ratatui = "*"
tokio = { version = "*", features = ["macros", "rt-multi-thread", "time"] }

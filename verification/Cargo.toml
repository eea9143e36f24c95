[package]
name = "shellwyze"
version = "0.1.0"
edition = "2021"
publish = false

[dependencies]
chatgpt_rs = "*"
clap = { version = "*", features = ["derive"] }
crossterm = "*"
ratatui = "*"
tokio = { version = "*", features = ["full"] }

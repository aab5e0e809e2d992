[package]
name = "jarvis"
version = "0.1.0"
edition = "2021"
publish = false

[dependencies]
serde_json = "*"
crossterm = "*"
ratatui = "*"
tokio = { version = "*", features = ["rt-multi-thread", "macros"] }

[package]
name = "clash_tui"
version = "0.1.0"
edition = "2021"
publish = false

[dependencies]
url = "2"
ratatui = "0.29"
crossterm = "0.28"
serde = { version = "1", features = ["derive"] }
serde_json = "1"
serde_yaml_ng = "0.10"

[package]
name = "uncl"
version = "0.1.0"
edition = "2021"
publish = false

[dependencies]
anyhow = "1"
bytes = "1"
crossterm = "0.28"
portable-pty = "0.8"
ratatui = "0.29"
tokio = { version = "1", features = ["macros", "rt-multi-thread", "sync", "time"] }
tui-term = "0.2"
vt100 = "0.15"

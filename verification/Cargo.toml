[package]
name = "traytui"
version = "0.1.0"
edition = "2021"
publish = false

[dependencies]
tui-tree-widget = "*"
ratatui = "*"
crossterm = { version = "*", features = ["event-stream"] }
tokio = { version = "*", features = ["rt-multi-thread", "macros", "sync"] }
futures = "*"
system-tray = "*"
clap = { version = "*", features = ["derive"] }
color-eyre = "*"
simplelog = "*"
log = "*"

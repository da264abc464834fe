[package]
name = "netscanner"
version = "0.1.0"
edition = "2021"
publish = false

[dependencies]
chrono = "0.4"
color-eyre = "0.6"
crossterm = { version = "0.28", features = ["serde", "event-stream"] }
csv = "1.3"
futures = "0.3"
log = "0.4"
pnet = "0.35"
ratatui = { version = "0.29", features = ["serde", "macros"] }
serde = { version = "1", features = ["derive"] }
signal-hook = "0.3"
strum = { version = "0.26", features = ["derive"] }
tokio = { version = "1", features = ["full"] }
tokio-util = "0.7"
tui-input = { version = "0.11", features = ["serde"] }

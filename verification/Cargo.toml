[package]
name = "fellowship"
version = "0.1.0"
edition = "2021"
publish = false

[dependencies]
anyhow = "1"
clap = { version = "4", features = ["derive"] }
crossterm = { version = "*", features = ["event-stream"] }
futures = "0.3"
notify = "*"
portable-pty = "*"
ratatui = "*"
serde = { version = "1", features = ["derive"] }
serde_json = "1"
tokio = { version = "1", features = ["full"] }
toml = "*"
tracing = "0.1"
tracing-subscriber = "0.3"
tui-input = "*"
uuid = { version = "1", features = ["v4"] }
vt100 = "*"

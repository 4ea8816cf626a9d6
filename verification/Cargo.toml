[package]
name = "druns"
version = "0.1.0"
edition = "2021"
publish = false

[dependencies]
procfs = "*"
tokio = { version = "*", features = ["rt-multi-thread", "macros", "process", "io-util", "sync", "time", "signal"] }
tokio-stream = { version = "*", features = ["io-util"] }
crossterm = "*"
ratatui = "*"
sysinfo = "*"
toml = "*"
serde = { version = "*", features = ["derive"] }
rand = "*"

[package]
name = "auxin"
version = "0.1.0"
edition = "2021"
publish = false

[dependencies]
anyhow = "=1.0.104"
chrono = "=0.4.45"
clap = { version = "=4.6.7", features = ["derive"] }
colored = "=2.2.0"
crossterm = "=0.28.1"
dirs = "=5.0.1"
hostname = "=0.4.2"
md5 = "=0.7.0"
ratatui = "=0.29.0"
regex = "=1.13.1"
serde = { version = "=1.0.229", features = ["derive"] }
serde_json = "=1.0.154"
toml = "=0.8.23"
uuid = { version = "=1.29.1", features = ["v4"] }
whoami = "=1.6.1"

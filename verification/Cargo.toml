[package]
name = "ginger_db"
version = "0.1.0"
edition = "2021"
publish = false

[dependencies]
serde = { version = "1", features = ["derive"] }
serde_json = "1"
toml = "0.8"
tera = "1"
clap = { version = "4", features = ["derive"] }
tokio = { version = "1", features = ["rt-multi-thread", "macros", "process", "time", "signal"] }
crossterm = "0.28"
ratatui = "0.29"
dirs = "5"
inquire = "0.7"
futures-util = "0.3"
tokio-tungstenite = "0.24"
ginger-shared-rs = "=0.51.0-nightly.0"

[package]
name = "audyo"
version = "0.1.0"
edition = "2021"
publish = false

[dependencies]
async-trait = "0.1"
crossterm = "0.28"
dirs = "6"
futures-util = "0.3"
glob = "0.3"
rand = "0.9"
ratatui = "0.29"
regex-lite = "0.1"
reqwest = { version = "0.12", features = ["json", "stream"] }
rodio = "0.20"
serde = { version = "1", features = ["derive"] }
serde_json = "1"
thiserror = "2"
tokio = { version = "1", features = ["full"] }

[package]
name = "ptrui"
version = "0.1.0"
edition = "2021"
publish = false

[dependencies]
tui-textarea = "=0.6.1"
ratatui = "=0.28.1"
crossterm = "=0.28.1"
serde = { version = "=1.0.229", features = ["derive"] }
serde_json = "=1.0.151"
reqwest = { version = "=0.13.5", default-features = false, features = ["blocking", "json"] }

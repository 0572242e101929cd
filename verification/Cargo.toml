[package]
name = "euvd"
version = "0.1.0"
edition = "2021"
publish = false

[dependencies]
chrono = "0.4"
ratatui = "0.30"
serde = { version = "1", features = ["derive"] }
serde_json = "1"
ureq = "3"

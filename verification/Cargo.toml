[package]
name = "ew_translator"
version = "1.0.1"
edition = "2021"
publish = false

[dependencies]
reqwest = { version = "0.12", features = ["json"] }
serde = { version = "1", features = ["derive"] }
serde_json = "1"
tokio = { version = "1", features = ["rt"] }
toml = "0.8"
clap = { version = "3", features = ["derive"] }
global-hotkey = "*"

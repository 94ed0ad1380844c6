[package]
name = "tuiji"
version = "0.1.0"
edition = "2021"
publish = false

[dependencies]
tui-input = "*"
reqwest = { version = "*", default-features = false }
uuid = { version = "*", features = ["v4", "v7"] }
serde = { version = "*", features = ["derive"] }
serde_json = "*"
ratatui = "0.29"
crossterm = "0.28"
color-eyre = "*"

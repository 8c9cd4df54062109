[package]
name = "json_editor"
version = "0.1.0"
edition = "2021"
publish = false

[dependencies]
ratatui = "0.29"
serde = "1"
serde_json = { version = "1", features = ["preserve_order"] }

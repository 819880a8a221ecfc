[package]
name = "config_creator"
version = "0.1.0"
edition = "2021"

[dependencies]
iced = { version = "0.10", default-features = false }
native-dialog = "0.6"
serde = { version = "1", features = ["derive"] }
serde_json = "1"

[package]
name = "config_sync"
version = "0.1.0"
edition = "2021"
publish = false

[dependencies]
regex = "1"
serde = { version = "1", features = ["derive"] }
serde_json = "1"
toml = "0.8"
diesel = { version = "2", features = ["sqlite"] }

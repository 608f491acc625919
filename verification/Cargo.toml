[package]
name = "stolcker"
version = "0.1.0"
edition = "2021"
publish = false

[dependencies]
serde_json = { version = "=1.0.154", features = ["preserve_order"] }
serde = { version = "=1.0.229", features = ["derive"] }
reqwest = { version = "=0.11.27", features = ["blocking"] }
druid = "=0.8.3"

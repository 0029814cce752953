[package]
name = "lumen-engine"
version = "0.1.0"
edition = "2021"
publish = false

[dependencies]
hex = "0.4"
rusqlite = { version = "*", features = ["bundled"] }
serde = { version = "1", features = ["derive"] }
serde_json = "1"
ureq = "2"

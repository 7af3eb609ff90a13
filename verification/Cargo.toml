[package]
name = "project_tracker"
version = "0.1.0"
edition = "2021"
publish = false

[dependencies]
ulid = "1"
chrono = "0.4"
serde = { version = "1", features = ["derive"] }
serde_json = "1"

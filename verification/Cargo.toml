[package]
name = "fresh"
version = "0.1.0"
edition = "2021"
publish = false

[dependencies]
serde = { version = "=1.0.229", features = ["derive"] }
serde_json = "=1.0.154"
egui = { version = "=0.37.0", default-features = false }
datafusion = { version = "=55.2.0", default-features = false }
dirs = "=7.0.0"
indexmap = "=2.14.2"

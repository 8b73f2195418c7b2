[package]
name = "releases"
version = "0.1.0"
edition = "2021"
publish = false

[dependencies]
futures = "0.1"
hyper = "0.11"
mime = "0.3"
serde = { version = "1", features = ["derive"] }
serde_json = "1"

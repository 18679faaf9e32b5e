[package]
name = "monzo"
version = "0.1.0"
edition = "2021"
publish = false

[dependencies]
erased-serde = "0.3"
reqwest = { version = "0.11", default-features = false, features = ["json"] }
serde = { version = "1", features = ["derive"] }
serde_json = "1"

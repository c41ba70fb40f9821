[package]
name = "es_bulk"
version = "0.1.0"
edition = "2021"
publish = false

[dependencies]
serde = { version = "1", features = ["derive"] }
serde_json = { version = "1", features = ["preserve_order"] }
thiserror = "1"
url = "2"
reqwest = { version = "0.12", default-features = false, features = ["blocking"] }

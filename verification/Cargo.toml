[package]
name = "vndb_api"
version = "0.1.0"
edition = "2021"
publish = false

[dependencies]
serde = { version = "*", features = ["derive"] }
serde_json = "*"
serde_repr = "*"
reqwest = { version = "*", default-features = false, features = ["json"] }

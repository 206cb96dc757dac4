[package]
name = "mor_blogger_ui_logic"
version = "0.1.0"
edition = "2021"
publish = false

[dependencies]
syntect = { version = "5", default-features = false, features = ["default-fancy"] }
serde = { version = "1", features = ["derive"] }
serde_json = "1"
toml = "0.8"
reqwest = { version = "0.12", default-features = false, features = ["rustls-tls"] }
dirs = "5"

[dev-dependencies]
serde_json = "1"

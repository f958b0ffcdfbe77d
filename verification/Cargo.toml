[package]
name = "raspberry_dashboard"
version = "0.1.0"
edition = "2021"
publish = false

[dependencies]
chrono = "0.4"
htmlize = { version = "1", features = ["unescape"] }
rand = "*"
serde = { version = "1", features = ["derive"] }
serde_json = "1"
toml = "*"
log = "0.4"
env_logger = "*"
tokio = { version = "1", features = ["full"] }
reqwest = { version = "0.12", default-features = false, features = ["json"] }
axum = "0.7"
image = { version = "0.25", default-features = false, features = ["png", "jpeg"] }
snapcast-control = "*"

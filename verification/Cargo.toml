[package]
name = "consult_portal"
version = "0.1.0"
edition = "2021"
publish = false

[dependencies]
actix-files = "0.6"
actix-multipart = "0.6"
actix-web = "4"
argon2 = { version = "0.5", features = ["std"] }
chrono = "0.4"
colorize = "0.1"
env_logger = "0.11"
futures = "0.3"
log = "0.4"
rayon = "1"
rusqlite = { version = "0.31", features = ["bundled"] }
serde = { version = "1", features = ["derive"] }
tokio = { version = "1", features = ["fs", "io-util"] }
urlencoding = "2"
uuid = { version = "1", features = ["v4"] }

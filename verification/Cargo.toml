[package]
name = "pastebin"
version = "0.1.0"
edition = "2021"
publish = false

[dependencies]
actix-web = { version = "4", default-features = false, features = ["macros"] }
actix-multipart = { version = "0.6", default-features = false }
actix-files = "0.6"
futures-util = "0.3"
sqlx = { version = "0.8", default-features = false, features = ["sqlite", "runtime-tokio"] }
serde = { version = "1", features = ["derive"] }
toml = "0.8"
minijinja = "2"
chrono = "0.4"
uuid = { version = "1", features = ["v4"] }
mime = "0.3"
log = "0.4"
env_logger = "0.11"

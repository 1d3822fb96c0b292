[package]
name = "notifications"
version = "0.1.0"
edition = "2021"
publish = false

[dependencies]
actix-rt = "*"
actix-web = { version = "*", default-features = false, features = ["macros"] }
anyhow = "*"
chrono = { version = "*", features = ["serde"] }
dotenv = "*"
futures = "*"
log = "*"
pretty_env_logger = "*"
serde = { version = "*", features = ["derive"] }
serde_json = "*"
sqlx = { version = "*", default-features = false, features = ["postgres", "runtime-tokio", "uuid", "chrono"] }
uuid = { version = "*", features = ["v4", "serde"] }

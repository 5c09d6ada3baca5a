[package]
name = "commercyfy_core"
version = "0.1.0"
edition = "2021"
publish = false

[dependencies]
argon2 = "0.5"
axum = "0.7"
chrono = "0.4"
dotenv = "0.15"
futures = "0.3"
jsonwebtoken = "9"
mongodb = "2"
regex = "1"
rust_decimal = { version = "1", features = ["serde"] }
serde = { version = "1", features = ["derive"] }
serde_json = "1"
serde_valid = "*"
sqlx = { version = "0.8", default-features = false, features = ["runtime-tokio", "postgres", "derive", "uuid", "rust_decimal", "time"] }
tokio = { version = "1", features = ["full"] }
tower-sessions = "0.12"
uuid = { version = "1", features = ["v4", "serde"] }

[package]
name = "authsystem"
version = "0.1.0"
edition = "2021"
publish = false

[dependencies]
argon2 = "=0.5.3"
chrono = "=0.4.45"
dashmap = "=6.2.1"
hex = "=0.4.3"
rand = "=0.8.8"
uuid = { version = "=1.29.0", features = ["v4", "serde"] }
askama = "=0.16.1"
axum = "=0.7.9"
dotenvy = "=0.15.7"
jsonwebtoken = "=9.3.1"
serde = { version = "=1.0.229", features = ["derive"] }
serde_json = { version = "=1.0.154", features = ["preserve_order"] }
sqlx = { version = "=0.8.6", default-features = false, features = ["postgres", "runtime-tokio", "uuid", "macros"] }
tokio = { version = "=1.54.1", features = ["full"] }
tower-sessions = "=0.13.0"
tower-sessions-redis-store = "=0.16.0"

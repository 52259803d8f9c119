[package]
name = "rust_auth"
version = "0.1.0"
edition = "2021"
publish = false

[dependencies]
argon2 = "=0.5.3"
uuid = { version = "=1.29.0", features = ["v4", "serde"] }
validator = "=0.16.1"
regex = "=1.13.1"
lazy_static = "=1.5.1"
once_cell = "=1.21.4"
secrecy = "=0.8.0"
anyhow = "=1.0.104"
tracing = "=0.1.44"
serde = { version = "=1.0.229", features = ["derive"] }
time = { version = "=0.3.55", features = ["macros", "formatting", "serde-well-known"] }
tokio = { version = "=1.54.1", features = ["full"] }
axum = "=0.7.9"
axum-flash = "=0.8.0"
tower = "=0.4.13"
tower-http = { version = "=0.5.2", features = ["fs"] }
tower-sessions = { version = "=0.7.0", features = ["redis-store"] }
askama = "=0.12.1"
dotenvy = "=0.15.7"
oauth2 = "=4.4.2"
reqwest = { version = "=0.11.27", features = ["json"] }
sqlx = { version = "=0.7.4", default-features = false, features = ["runtime-tokio", "postgres", "uuid", "time"] }

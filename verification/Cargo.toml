[package]
name = "adda"
version = "0.1.0"
edition = "2021"
publish = false

[dependencies]
regex = "=1.13.1"
sanitize_html = "=0.10.0"
argon2 = "=0.5.3"
axum = "=0.8.9"
tokio = { version = "=1.54.1", features = ["full"] }
sqlx = { version = "=0.8.6", default-features = false, features = ["postgres", "runtime-tokio", "chrono", "uuid", "migrate", "macros"] }
chrono = { version = "=0.4.45", default-features = false }
tera = { version = "=1.20.1", default-features = false }
tower = "=0.5.3"
tower-http = { version = "=0.6.11", features = ["compression-gzip", "fs", "timeout"] }
dotenv = "=0.15.0"
lazy_static = "=1.5.1"
serde = { version = "=1.0.229", features = ["derive"] }
uuid = { version = "=1.29.0", features = ["v4", "serde"] }

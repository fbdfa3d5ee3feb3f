[package]
name = "emergencial"
version = "0.1.0"
edition = "2021"
publish = false

[dependencies]
argon2 = "=0.5.3"
rand_core = { version = "=0.6.4", features = ["getrandom"] }
hmac = "=0.12.1"
sha2 = "=0.10.9"
uuid = { version = "=1.29.0", features = ["v4"] }
chrono = { version = "=0.4.45", features = ["serde"] }
axum = "=0.7.9"
sqlx = { version = "=0.8.6", default-features = false, features = ["postgres", "runtime-tokio", "derive", "chrono", "json", "uuid"] }
serde = { version = "=1.0.229", features = ["derive"] }
serde_json = "=1.0.154"
thiserror = "=1.0.69"
tracing = "=0.1.44"

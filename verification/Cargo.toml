[package]
name = "starter"
version = "0.1.0"
edition = "2021"
publish = false

[dependencies]
uuid = { version = "=1.29.1", features = ["v4"] }
ulid = "=1.2.1"
fake = "=5.1.0"
rand = "=0.8.8"
mime_guess = "=2.0.5"
validator = "=0.21.0"
chrono = "=0.4.45"
serde = { version = "=1.0.229", features = ["derive"] }
evento = "=0.9.1"
evento-query = "=0.9.1"
harsh = "=0.2.2"
anyhow = "=1.0.104"
tokio = { version = "=1.54.1", features = ["macros", "rt-multi-thread"] }
sqlx = { version = "=0.7.4", default-features = false, features = ["postgres", "runtime-tokio", "chrono", "uuid", "json"] }
axum = "=0.6.20"
config = { version = "=0.13.4", default-features = false, features = ["toml"] }

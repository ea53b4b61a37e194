[package]
name = "shooting_star"
version = "0.1.0"
edition = "2021"
publish = false

[dependencies]
argon2 = { version = "=0.4.1", features = ["std"] }
rand = { version = "=0.8.8", features = ["std_rng"] }
secrecy = { version = "=0.8.0", features = ["serde"] }
validator = "=0.16.1"
actix-web = "=4.18.1"
actix-cors = "=0.6.5"
actix-session = { version = "=0.7.2", features = ["redis-rs-session"] }
anyhow = "=1.0.104"
async-trait = "=0.1.92"
chrono = { version = "=0.4.45", features = ["serde"] }
config = { version = "=0.11.0", default-features = false, features = ["yaml"] }
serde = { version = "=1.0.229", features = ["derive"] }
sqlx = { version = "=0.6.3", default-features = false, features = ["runtime-tokio-rustls", "macros", "postgres", "chrono"] }
thiserror = "=1.0.69"
tokio = { version = "=1.54.1", features = ["macros", "rt-multi-thread"] }
tracing = { version = "=0.1.44", features = ["log"] }
tracing-subscriber = "=0.3.23"

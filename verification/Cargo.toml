[package]
name = "sinkron"
version = "0.1.0"
edition = "2021"
publish = false

[dependencies]
axum = { version = "0.7", features = ["ws"] }
base64 = "=0.22.1"
chrono = { version = "0.4", features = ["serde"] }
deadpool = "0.12"
diesel = { version = "2", default-features = false, features = ["postgres_backend", "uuid", "chrono"] }
diesel-async = { version = "0.5", features = ["postgres", "deadpool", "async-connection-wrapper"] }
diesel_migrations = "2"
env_logger = "0.11"
futures-util = "0.3"
log = "0.4"
loro = "=1.17.1"
lru = "=0.12.5"
reqwest = { version = "0.12", default-features = false }
serde = { version = "1", features = ["derive"] }
serde_json = "1"
tokio = { version = "1", features = ["full"] }
uuid = { version = "=1.29.0", features = ["serde", "v4"] }

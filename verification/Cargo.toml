[package]
name = "nomad_events"
version = "0.1.0"
edition = "2021"
publish = false

[dependencies]
serde_json = "=1.0.151"
sha2 = "=0.11.0"
hex = "=0.4.3"
serde = { version = "=1.0.229", features = ["derive"] }
tokio = { version = "=1.53.2", features = ["macros", "rt-multi-thread", "sync"] }
axum = "=0.8.9"
jsonwebtoken = "=11.1.0"
chrono = { version = "=0.4.45", features = ["serde"] }
sqlx = { version = "=0.9.0", features = ["sqlite", "runtime-tokio"] }

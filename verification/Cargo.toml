[package]
name = "fumo"
version = "0.1.0"
edition = "2021"
publish = false

[dependencies]
chrono = "0.4"
dotenvy = "0.15"
poise = "0.6"
rand = "0.9"
serenity = { version = "0.12", default-features = false, features = ["builder", "cache", "chrono", "client", "collector", "gateway", "http", "model", "rustls_backend", "utils"] }
sqlx = { version = "0.8", default-features = false, features = ["derive", "migrate", "runtime-tokio", "sqlite"] }
tokio = { version = "1", features = ["macros", "rt-multi-thread", "sync", "time"] }

[package]
name = "secure_website"
version = "0.1.0"
edition = "2021"
publish = false

[dependencies]
argon2 = "0.5"
sha2 = "0.10"
getrandom = "0.2"
rusqlite = "0.31"
r2d2 = "0.8"
r2d2_sqlite = "0.24"
axum = "0.7"
tokio = { version = "1", features = ["rt-multi-thread", "macros", "net"] }
anyhow = "1"
thiserror = "1"

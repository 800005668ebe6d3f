[package]
name = "perekladach"
version = "0.1.0"
edition = "2021"
publish = false

[dependencies]
actix-files = "0.6"
actix-multipart = "0.6"
actix-web = "4"
actix-web-httpauth = "0.8"
anyhow = "1"
argon2 = "0.4"
base64 = "0.13"
futures = "0.3"
language-tags = "0.3"
password-hash = "0.4"
rand = "0.8"
secrecy = "0.8"
serde = { version = "1", features = ["derive"] }
sqlx = { version = "0.7", default-features = false, features = ["runtime-tokio", "postgres", "uuid"] }
thiserror = "1"
tokio = { version = "1", features = ["macros", "rt-multi-thread", "fs", "io-util"] }
uuid = { version = "1", features = ["v4", "serde"] }

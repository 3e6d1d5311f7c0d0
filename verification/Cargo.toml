[package]
name = "intricase"
version = "0.1.0"
edition = "2021"
publish = false

[dependencies]
anyhow = "1"
argon2 = "0.5"
axum = "0.7"
axum-extra = { version = "0.9", features = ["cookie", "cookie-private"] }
chrono = { version = "0.4", features = ["serde"] }
dotenvy = "0.15"
handlebars = "5"
lettre = { version = "0.11", default-features = false, features = ["builder", "smtp-transport", "rustls-tls"] }
log = "0.4"
serde = { version = "1", features = ["derive"] }
serde_json = "1"
sqlx = { version = "0.7", default-features = false, features = ["postgres", "runtime-tokio", "uuid", "chrono", "migrate"] }
tokio = { version = "1", features = ["full"] }
tower-http = { version = "0.5", features = ["cors", "fs", "trace"] }
tracing = "0.1"
tracing-subscriber = "0.3"
ts-rs = { version = "8", features = ["chrono-impl", "uuid-impl"] }
url = "2"
uuid = { version = "1", features = ["v7", "serde"] }
zxcvbn = "2"

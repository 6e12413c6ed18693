[package]
name = "delivery_queue"
version = "0.1.0"
edition = "2021"
publish = false

[dependencies]
actix-session = { version = "*", features = ["cookie-session"] }
actix-web = { version = "4", default-features = false, features = ["macros", "cookies"] }
anyhow = "1"
chrono = { version = "0.4", default-features = false, features = ["std", "clock"] }
dotenvy = "0.15"
env_logger = "*"
lettre = { version = "0.11", default-features = false, features = ["builder", "smtp-transport", "pool", "tokio1", "tokio1-rustls-tls"] }
lightningcss = { version = "1.0.0-alpha.1", default-features = false }
log = "0.4"
rand = "0.8"
secrecy = "0.8"
serde = { version = "1", features = ["derive"] }
sqlx = { version = "0.8", default-features = false, features = ["postgres", "runtime-tokio", "uuid", "chrono", "derive"] }
tera = { version = "1", default-features = false }
thiserror = "1"
tokio = { version = "1", features = ["macros", "rt-multi-thread", "time"] }
tracing = "0.1"
tracing-log = "0.2"
uuid = { version = "1", features = ["v4", "serde"] }

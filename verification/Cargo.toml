[package]
name = "jb_api"
version = "0.1.0"
edition = "2021"
publish = false

[dependencies]
rust_decimal = "=1.43.0"
argon2 = "=0.5.3"
actix-web = "=4.18.1"
actix-multipart = "=0.7.2"
sea-orm = { version = "=1.1.20", default-features = false, features = ["macros", "with-json", "with-chrono", "with-rust_decimal", "with-uuid", "sqlx-postgres", "runtime-tokio-rustls"] }
serde = { version = "=1.0.229", features = ["derive"] }
serde_json = "=1.0.154"
tokio = { version = "=1.54.1", features = ["macros", "rt-multi-thread"] }
log = "=0.4.35"
rust_xlsxwriter = "=0.102.0"
jsonwebtoken = "=9.3.1"
chrono = "=0.4.45"
uuid = { version = "=1.29.0", features = ["v4"] }
validator = { version = "=0.21.0", features = ["derive"] }
mime = "=0.3.17"
image = { version = "=0.25.10", default-features = false, features = ["png", "jpeg"] }
lettre = { version = "0.11", default-features = false, features = ["builder", "smtp-transport", "rustls-tls"] }
dotenvy = "0.15"

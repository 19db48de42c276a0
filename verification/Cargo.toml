[package]
name = "my_retreat_nest"
version = "0.1.0"
edition = "2021"
publish = false

[dependencies]
jwt-simple = { version = "0.12", default-features = false, features = ["pure-rust"] }
serde = { version = "1", features = ["derive"] }
serde_json = "1"
validator = { version = "0.20", features = ["derive"] }
uuid = { version = "1", features = ["v4"] }
mime_guess = "2"
axum = { version = "0.8", features = ["multipart"] }
tokio = { version = "1", features = ["rt-multi-thread", "macros", "net", "fs", "io-util"] }
tower-http = { version = "0.6", features = ["catch-panic", "compression-gzip", "cors"] }
sea-orm = { version = "1.1", default-features = false, features = ["sqlx-postgres", "runtime-tokio-rustls", "macros", "with-json", "with-rust_decimal"] }
dotenvy = "0.15"
once_cell = "1"
password-worker = { version = "0.4", features = ["rust-argon2"] }

[package]
name = "gamba"
version = "0.1.0"
edition = "2021"
publish = false

[dependencies]
anyhow = "1"
axum = { version = "0.7", features = ["macros"] }
axum-extra = { version = "0.9", features = ["cookie-signed"] }
chrono = { version = "0.4", default-features = false, features = ["std", "serde"] }
cookie = { version = "0.18", features = ["secure"] }
derive_more = { version = "1", features = ["deref"] }
dotenvy = "0.15"
http = "1"
oauth2 = "4.4"
reqwest = { version = "0.11", default-features = false, features = ["json", "blocking", "rustls-tls"] }
serde = { version = "1", features = ["derive"] }
serde_json = "1"
sqlx = { version = "0.8", default-features = false, features = ["postgres", "runtime-tokio", "bigdecimal", "chrono", "derive"] }
tower = "0.4"
tower-http = { version = "0.5", features = ["add-extension", "catch-panic", "compression-gzip", "timeout"] }
url = "2"

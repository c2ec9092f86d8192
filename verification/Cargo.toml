[package]
name = "webserver"
version = "0.1.0"
edition = "2021"
publish = false

[dependencies]
validator = "=0.16.1"
secrecy = { version = "=0.8.0", features = ["serde"] }
anyhow = "=1.0.104"
serde = { version = "=1.0.229", features = ["derive"] }
serde_json = "=1.0.154"
serde-aux = "=4.7.0"
config = { version = "=0.13.4", default-features = false, features = ["yaml"] }
actix-web = "=4.18.1"
actix-web-codegen = "=4.5.0"
actix-4-jwt-auth = "=1.2.9"
sqlx = { version = "=0.7.4", default-features = false, features = ["runtime-tokio", "postgres", "macros", "migrate", "uuid"] }
tracing = "=0.1.44"
tracing-actix-web = "=0.7.25"
uuid = { version = "=1.29.0", features = ["v4"] }
reqwest = { version = "=0.11.27", default-features = false, features = ["json"] }

[package]
name = "zero2prod"
version = "0.1.0"
edition = "2021"
publish = false

[dependencies]
actix-web = "=4.18.1"
anyhow = "=1.0.104"
async-nats = "0.38"
chrono = { version = "=0.4.45", default-features = false, features = ["clock", "std"] }
envy = "=0.4.2"
futures-util = "=0.3.34"
reqwest = { version = "=0.11.27", default-features = false, features = ["json", "rustls-tls"] }
secrecy = { version = "=0.8.0", features = ["serde"] }
serde = { version = "=1.0.229", features = ["derive"] }
serde_json = "=1.0.154"
sqlx = { version = "=0.6.3", default-features = false, features = ["runtime-tokio-rustls", "postgres", "uuid", "chrono"] }
thiserror = "=1.0.69"
tokio = { version = "=1.54.1", features = ["macros", "rt-multi-thread"] }
tracing = "=0.1.44"
tracing-actix-web = "=0.7.25"
unicode-segmentation = "=1.13.3"
uuid = { version = "=1.29.0", features = ["v4", "serde"] }
validator = "=0.16.1"

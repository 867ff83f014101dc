[package]
name = "quivive"
version = "0.1.0"
edition = "2021"
publish = false

[dependencies]
serenity = "0.10"
tokio = { version = "1", features = ["macros", "rt-multi-thread", "signal", "process", "sync"] }
reqwest = { version = "0.11", default-features = false, features = ["json", "rustls-tls"] }
sqlx = { version = "0.5", default-features = false, features = ["runtime-tokio-rustls", "postgres"] }
dashmap = "4"
futures = "0.3"
serde = { version = "1", features = ["derive"] }
serde_json = "1"
tracing = "0.1"
tracing-subscriber = "0.2"

[package]
name = "sale_actions"
version = "0.1.0"
edition = "2021"
publish = false

[dependencies]
axum = "0.6"
chrono = { version = "0.4", default-features = false, features = ["std"] }
email_address = "0.2"
futures = "0.3"
mongodb = "2"
reqwest = { version = "0.11", default-features = false, features = ["rustls-tls"] }
serde = { version = "1", features = ["derive"] }
starknet = "0.9"
tokio = { version = "1", features = ["macros", "rt-multi-thread"] }
tower-http = { version = "0.4", features = ["cors"] }

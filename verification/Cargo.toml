[package]
name = "ignite"
version = "0.1.0"
edition = "2021"
publish = false

[dependencies]
actix-web = { version = "=4.18.1", default-features = false, features = ["macros"] }
chrono = { version = "=0.4.45", default-features = false, features = ["clock", "std", "serde"] }
serde = { version = "=1.0.229", features = ["derive"] }
serde_json = "=1.0.154"
surrealdb-types = { version = "=3.3.5", default-features = false }
uuid = { version = "=1.29.0", features = ["v4", "serde"] }

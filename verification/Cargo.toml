[package]
name = "firestore_db_and_auth"
version = "0.1.0"
edition = "2021"
publish = false

[dependencies]
backoff = { version = "=0.3.0", features = ["tokio"] }
chrono = { version = "=0.4.45", features = ["serde"] }
reqwest = { version = "=0.11.27", default-features = false, features = ["blocking", "json"] }
serde = { version = "=1.0.229", features = ["derive"] }
serde_json = "=1.0.154"
tokio = { version = "=1.54.1", features = ["time"] }

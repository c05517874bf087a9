[package]
name = "roster_model"
version = "0.1.0"
edition = "2021"
publish = false

[dependencies]
anyhow = "1"
chrono = { version = "0.4", default-features = false, features = ["std"] }
iso8601 = { version = "*", features = ["chrono", "serde"] }
serde = { version = "1", features = ["derive"] }

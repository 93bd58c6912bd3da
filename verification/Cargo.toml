[package]
name = "email_processor"
version = "0.1.0"
edition = "2021"
publish = false

[dependencies]
chrono = { version = "=0.4.45", features = ["serde"] }
uuid = { version = "=1.27.0", features = ["v4", "serde"] }
rayon = "=1.12.0"
serde = { version = "1", features = ["derive"] }
serde_json = "1"
actix-web = "4"
tracing = "0.1"
tracing-subscriber = { version = "0.3", features = ["env-filter", "json"] }
metrics = "*"
metrics-exporter-prometheus = "*"
futures-util = "0.3"
anyhow = "1"
dotenv = "0.15"

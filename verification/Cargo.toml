[package]
name = "sms_scraper"
version = "0.1.0"
edition = "2021"
publish = false

[dependencies]
metrics = "=0.24.6"
metrics-exporter-prometheus = { version = "=0.18.3", default-features = false }
serde = { version = "=1.0.229", features = ["derive"] }
serde_json = "=1.0.154"
chrono = "=0.4.45"
chrono-tz = "0.10"
uuid = { version = "=1.29.0", features = ["v4", "v5"] }
sha2 = "=0.10.9"
hex = "=0.4.3"
scraper = "=0.29.0"
clap = { version = "=4.6.7", features = ["derive"] }

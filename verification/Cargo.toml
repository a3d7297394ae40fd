[package]
name = "vatsim_exporter"
version = "0.1.0"
edition = "2021"
publish = false

[dependencies]
axum = "*"
chrono = { version = "*", features = ["serde"] }
env_logger = "*"
figment = { version = "*", features = ["env"] }
futures = "*"
log = "*"
metrics = "*"
metrics-exporter-prometheus = { version = "*", default-features = false }
metrics-util = "*"
reqwest = { version = "*", default-features = false, features = ["json"] }
serde = { version = "*", features = ["derive"] }
tokio = { version = "*", features = ["full"] }

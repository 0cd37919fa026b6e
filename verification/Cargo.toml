[package]
name = "fronius-metrics"
version = "0.1.0"
edition = "2021"
publish = false

[dependencies]
axum = { version = "*", features = ["macros"] }
clap = { version = "4", features = ["derive"] }
futures = "0.3"
ipnetwork = "*"
opentelemetry = "*"
opentelemetry-otlp = "*"
opentelemetry_sdk = "*"
reqwest = { version = "*", default-features = false, features = ["json"] }
serde = { version = "1", features = ["derive"] }
serde_json = "1"
serde_prometheus = "*"
tokio = { version = "1", features = ["full"] }
tower-http = { version = "*", features = ["trace"] }
tracing = "0.1"
tracing-opentelemetry = "*"
tracing-subscriber = { version = "0.3", features = ["env-filter", "fmt"] }

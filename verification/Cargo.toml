[package]
name = "xai-grok-telemetry"
version = "0.1.0"
edition = "2021"
publish = false

[dependencies]
chrono = "=0.4.45"
reqwest = { version = "=0.13.5", default-features = false }
sentry = { version = "=0.49.5", default-features = false }
serde_json = "=1.0.154"
whoami = "=1.6.1"

[dev-dependencies]
tokio = { version = "=1.54.1", features = ["rt"] }

[package]
name = "pgauthz"
version = "0.1.0"
edition = "2021"
publish = false

[dependencies]
authz-core = "=0.1.0"
async-trait = "=0.1.92"
moka = { version = "=0.12.16", features = ["sync"] }
opentelemetry = "=0.22.0"
opentelemetry_sdk = { version = "=0.22.1", features = ["rt-tokio"] }
opentelemetry-otlp = "=0.15.0"
pgrx = "=0.16.1"
pollster = "=0.3.0"
serde = { version = "=1.0.229", features = ["derive"] }
serde_json = "=1.0.154"
tracing = "=0.1.44"
tracing-subscriber = { version = "=0.3.23", features = ["env-filter"] }
ulid = "=1.2.1"

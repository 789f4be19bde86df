[package]
name = "shippingservice"
version = "0.1.0"
edition = "2021"
publish = false

[dependencies]
log = "0.4"
opentelemetry = { version = "0.18", features = ["rt-tokio", "trace"] }
opentelemetry_api = "0.18"
opentelemetry-http = "0.7"
opentelemetry-otlp = "0.11"
opentelemetry-semantic-conventions = "0.10"
prost = "0.11"
reqwest = { version = "0.11", default-features = false, features = ["json"] }
reqwest-middleware = "0.2"
reqwest-tracing = { version = "0.4", features = ["opentelemetry_0_18"] }
simplelog = "0.12"
tokio = { version = "1", features = ["macros", "rt-multi-thread"] }
tonic = "0.8"
tonic-health = "0.8"
tracing = "0.1"
tracing-opentelemetry = "0.18"
tracing-subscriber = "0.3"
uuid = { version = "1", features = ["v4"] }

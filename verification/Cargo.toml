[package]
name = "temporal_bridge"
version = "0.1.0"
edition = "2021"
publish = false

[dependencies]
ffi-convert = "=0.6.2"
serde = { version = "1", features = ["derive"] }
serde_json = "1"
temporalio-common = { version = "=1.1.1", features = ["vendored-protox", "otel", "core-based-sdk"] }
temporalio-sdk-core = { version = "=0.10.1", features = ["otel"] }
tracing = "=0.1.44"
url = "=2.5.8"

[package]
name = "nx_gov_metrics"
version = "0.1.0"
edition = "2021"
publish = false

[dependencies]
ic-cdk = "*"
serde_bytes = "*"

[dev-dependencies]
ic-metrics-encoder = "*"

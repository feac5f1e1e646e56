[package]
name = "project_propagate_labels"
version = "0.1.0"
edition = "2021"
publish = false

[dependencies]
anyhow = "=1.0.104"
serde = { version = "=1.0.229", features = ["derive"] }
serde_json = "=1.0.151"
slog = "=2.8.2"
lazy_static = "=1.5.1"
kubewarden-policy-sdk = "=0.17.3"
k8s-openapi = { version = "=0.28.0", features = ["v1_36", "schemars"] }
k8s-openapi-derive = "=0.28.0"
schemars = { version = "=1.2.2", features = ["derive"] }

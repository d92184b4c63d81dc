[package]
name = "kubectl_light"
version = "0.1.0"
edition = "2021"
publish = false

[dependencies]
anyhow = "1"
axum = "0.7"
clap = { version = "4", features = ["derive"] }
futures = "0.3"
include_dir = "0.7"
k8s-openapi = { version = "0.21", features = ["latest"] }
kube = "0.88"
mime_guess = "2"
serde = { version = "1", features = ["derive"] }
serde_json = "1"
serde_yaml = "0.9"
tokio = { version = "1", features = ["full"] }

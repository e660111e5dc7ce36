[package]
name = "job_engine"
version = "0.1.0"
edition = "2021"
publish = false

[dependencies]
serde = { version = "1", features = ["derive"] }
serde_json = "1"
base64 = "0.22"
retry = "2"
tokio = { version = "1", features = ["macros", "rt", "time"] }
kube = { version = "*", features = ["ws"] }
k8s-openapi = { version = "*", features = ["latest"] }

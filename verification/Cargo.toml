[package]
name = "homelab_aws_creds"
version = "0.1.0"
edition = "2021"
publish = false

[dependencies]
anyhow = "=1.0.104"
arc-swap = "=1.9.3"
aws-config = { version = "=1.12.0", features = ["behavior-version-latest"] }
aws-sdk-sts = { version = "=1.119.0", features = ["behavior-version-latest"] }
aws-smithy-types = "=1.9.0"
aws-types = "=1.6.0"
axum = "=0.8.9"
axum-server = { version = "=0.8.0", features = ["tls-rustls"] }
clap = { version = "=4.6.7", features = ["derive", "env"] }
futures-util = "=0.3.34"
http = "=1.5.0"
json-patch = "=4.2.0"
jsonptr = "=0.7.1"
k8s-openapi = { version = "=0.27.1", features = ["latest"] }
kube = { version = "=3.1.0", features = ["client", "admission"] }
metrics = "=0.24.6"
metrics-exporter-prometheus = { version = "=0.18.3", default-features = false }
notify = "=8.2.0"
rtnetlink = "=0.23.0"
serde = { version = "=1.0.229", features = ["derive"] }
serde_json = "=1.0.154"
serde_yaml_ng = "=0.10.0"
thiserror = "=2.0.21"
tokio = { version = "=1.54.1", features = ["full"] }
tokio-rustls = "=0.26.6"
tokio-util = "=0.7.20"
tower = { version = "=0.5.3", features = ["timeout", "util"] }
tower-http = { version = "=0.6.11", features = ["trace"] }
tracing = "=0.1.44"
tracing-subscriber = { version = "=0.3.23", features = ["env-filter"] }

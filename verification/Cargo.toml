[package]
name = "just_one_init"
version = "0.1.0"
edition = "2021"
publish = false

[dependencies]
axum = "=0.6.20"
clap = { version = "=4.6.7", features = ["derive", "env"] }
k8s-openapi = { version = "0.18", features = ["v1_26"] }
kube = { version = "0.84", default-features = false, features = ["client", "rustls-tls"] }
kube-leader-election = "0.24"
miette = { version = "=5.10.0", features = ["fancy"] }
serde_json = "=1.0.154"
shellwords = "=1.1.0"
tokio = { version = "=1.54.1", features = ["full"] }
tower = "=0.4.13"
tower-http = { version = "=0.4.4", features = ["trace", "compression-gzip"] }
tracing = "=0.1.44"
tracing-futures = "=0.2.5"
tracing-subscriber = { version = "=0.3.23", features = ["env-filter", "fmt"] }

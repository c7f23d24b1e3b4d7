[package]
name = "minikubelet"
version = "0.1.0"
edition = "2021"
publish = false

[dependencies]
anyhow = "1"
base64 = "0.13"
chrono = "0.4"
futures = "0.3"
k8s-openapi = { version = "0.17", default-features = false, features = ["v1_26"] }
kube = { version = "0.78", default-features = false, features = ["client", "rustls-tls", "runtime"] }
kube-runtime = "0.78"
prost = "0.11"
rcgen = "0.8"
serde_json = "1"
tokio = { version = "1", features = ["full"] }
tonic = "0.8"
tracing = "0.1"
tracing-subscriber = "0.3"

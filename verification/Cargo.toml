[package]
name = "stellar_k8s"
version = "0.1.0"
edition = "2021"
publish = false

[dependencies]
anyhow = "1"
async-trait = "0.1"
axum = "0.7"
base64 = "=0.21.7"
chrono = "=0.4.45"
futures = "0.3"
k8s-openapi = { version = "=0.21.1", features = ["v1_29", "schemars"] }
kube = { version = "=0.90.0", default-features = false, features = ["client", "runtime", "derive", "rustls-tls"] }
once_cell = "1"
prometheus-client = "=0.22.3"
reqwest = { version = "=0.11.27", default-features = false, features = ["json", "native-tls", "rustls-tls"] }
schemars = "0.8"
serde = { version = "1", features = ["derive"] }
serde_json = "=1.0.154"
sha2 = "=0.10.9"
thiserror = "1"
tokio = { version = "1", features = ["macros", "rt-multi-thread", "net", "time"] }
tower-http = { version = "0.5", features = ["trace"] }
tracing = "0.1"

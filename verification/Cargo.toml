[package]
name = "proteus"
version = "0.1.0"
edition = "2021"
publish = false

[dependencies]
aes-gcm = "=0.10.3"
rand = "=0.8.8"
blake3 = { version = "=1.8.7", features = ["pure"] }
hex = "=0.4.3"
serde = { version = "=1.0.229", features = ["derive"] }
serde_json = "=1.0.154"
tokio = { version = "=1.54.1", features = ["rt-multi-thread", "macros", "fs", "time", "sync", "net", "io-util"] }
kube = { version = "=0.98.0", features = ["runtime", "derive", "ws"] }
k8s-openapi = { version = "=0.24.0", features = ["v1_30"] }
schemars = "=0.8.22"
thiserror = "=1.0.69"
anyhow = "=1.0.104"
chrono = "=0.4.45"
uuid = { version = "=1.29.0", features = ["v4"] }
tracing = "=0.1.44"
tracing-subscriber = { version = "=0.3.23", features = ["env-filter"] }
async-trait = "=0.1.92"
bytes = "=1.12.1"
axum = "=0.7.9"
tower-http = { version = "=0.6.11", features = ["cors", "trace"] }
parking_lot = "=0.12.5"
futures = "=0.3.34"

[package]
name = "ferriskey_operator"
version = "0.1.0"
edition = "2021"
publish = false

[dependencies]
base64 = "0.22"
futures = "0.3"
k8s-openapi = { version = "0.26", features = ["latest"] }
kube = { version = "2", features = ["runtime", "derive"] }
reqwest = { version = "0.12", default-features = false, features = ["json", "charset", "rustls-tls"] }
schemars = "1"
serde = { version = "1", features = ["derive"] }
serde_json = "1"
tokio = { version = "1", features = ["macros", "rt-multi-thread"] }
tracing = "0.1"

[package]
name = "device_operator"
version = "0.1.0"
edition = "2021"
publish = false

[dependencies]
anyhow = "1"
futures = "0.3"
k8s-openapi = { version = "0.17", features = ["v1_26"] }
kube = { version = "0.78", features = ["runtime", "derive"] }
schemars = "0.8"
serde = { version = "1", features = ["derive"] }
serde_json = "1"
tokio = { version = "1", features = ["macros", "rt-multi-thread", "time"] }

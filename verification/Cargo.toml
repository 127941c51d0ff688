[package]
name = "vpn_operator"
version = "0.1.0"
edition = "2021"
publish = false

[dependencies]
chrono = "=0.4.45"
parse_duration = "=2.1.1"
kube = { version = "=4.2.0", features = ["runtime", "derive", "client"] }
k8s-openapi = { version = "=0.28.0", features = ["latest"] }
serde = { version = "=1.0.229", features = ["derive"] }
serde_json = "=1.0.151"
schemars = "1"
thiserror = "=2.0.21"
tokio = { version = "=1.53.2", features = ["macros", "rt-multi-thread", "time"] }
futures = "=0.3.34"
clap = { version = "=4.6.7", features = ["derive", "env"] }
json-patch = "=4.2.0"

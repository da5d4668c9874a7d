[package]
name = "lynx_balancer"
version = "0.1.0"
edition = "2021"
publish = false

[dependencies]
actix-proxy = "0.2"
actix-session = { version = "0.7", features = ["cookie-session"] }
actix-web = "4"
async-trait = "0.1"
awc = "3"
clap = { version = "4", features = ["derive"] }
futures = "0.3"
jwt-simple = "0.11"
k8s-openapi = { version = "0.17", features = ["v1_26"] }
kube = { version = "0.80", default-features = false, features = ["client", "runtime", "rustls-tls"] }
redis = { version = "0.22", features = ["tokio-comp"] }
serde = { version = "1", features = ["derive"] }
serde_json = "1"
tokio = { version = "1", features = ["time"] }
tracing = "0.1"
tracing-subscriber = "0.3"

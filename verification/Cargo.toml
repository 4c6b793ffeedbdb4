[package]
name = "mesa"
version = "0.1.0"
edition = "2021"
publish = false

[dependencies]
base64 = "0.21"
rustls-pemfile = "1.0"
regex = "1"
substring = "1"
serde = { version = "1", features = ["derive"] }
serde_json = "1"
serde_yaml = "0.9"
kube = { version = "0.87", default-features = false, features = ["client", "rustls-tls", "ws"] }
k8s-openapi = { version = "0.20", features = ["v1_26"] }
tokio = { version = "1", features = ["full"] }
tokio-util = { version = "0.7", features = ["io"] }
futures = "0.3"
hyper = { version = "0.14", features = ["client", "http1", "tcp"] }
hyper-socks2 = { version = "0.8", default-features = false }
hyper-rustls = "0.24"
tokio-rustls = "0.24"
tower = "0.4"
reqwest = { version = "0.11", default-features = false, features = ["json", "socks", "rustls-tls"] }
secrecy = "0.8"
log = "0.4"
thiserror = "1"
termion = "2"
comfy-table = "7"

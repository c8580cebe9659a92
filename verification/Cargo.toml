[package]
name = "storage"
version = "0.1.0"
edition = "2021"
publish = false

[dependencies]
failure = "=0.1.8"
futures = "=0.1.31"
http = "=0.1.21"
log = "0.4"
serde = "1"
svc-authn = { version = "=0.8.0", features = ["jose"] }
svc-authz = "=0.12.0"
tokio = { version = "1", features = ["rt", "net", "time"] }
tower-web = "=0.3.7"

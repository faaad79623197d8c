[package]
name = "plexus_transport"
version = "0.1.0"
edition = "2021"
publish = false

[dependencies]
anyhow = "1"
bytes = "1"
http = "1"
http-body = "1"
jsonrpsee = { version = "*", features = ["server", "ws-client", "client"] }
plexus-core = "*"
serde_json = "1"
tokio = { version = "1", features = ["full"] }
tower = { version = "*", features = ["util"] }
tracing = "0.1"

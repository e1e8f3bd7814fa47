[package]
name = "d2tools"
version = "0.1.0"
edition = "2021"
publish = false

[dependencies]
serde_json = "=1.0.151"
rusqlite = { version = "=0.40.2", features = ["bundled"] }
url = "=2.5.8"
uritemplate = "=0.1.2"
tokio-retry = "=0.3.2"
zip = "=8.6.0"
rand = "=0.8.8"
futures = "=0.3.34"
hyper = { version = "=0.14.32", features = ["client", "http1", "tcp"] }
hyper-tls = "=0.5.0"
tokio = { version = "1", features = ["rt", "net", "time"] }

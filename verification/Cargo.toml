[package]
name = "narwhalol"
version = "0.2.0"
edition = "2021"
publish = false

[dependencies]
serde_json = "=1.0.154"
serde = { version = "=1.0.229", features = ["derive"] }
hyper = { version = "=0.14.32", features = ["client", "http1", "tcp"] }
tokio = { version = "=1.54.1", features = ["rt", "net"] }
tokio-native-tls = "=0.3.1"
native-tls = "=0.2.18"
parking_lot = "=0.12.5"

[package]
name = "ingester"
version = "0.1.0"
edition = "2021"
publish = false

[dependencies]
bytes = "=1.12.1"
http = "=1.5.0"
url = "=2.5.8"
serde = "=1.0.229"
serde_json = "=1.0.154"
futures-util = "=0.3.34"
reqwest = { version = "=0.12.28", default-features = false, features = ["rustls-tls"] }
governor = "=0.10.4"

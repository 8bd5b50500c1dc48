[package]
name = "ip2location_io"
version = "0.1.0"
edition = "2021"
publish = false

[dependencies]
idna = "=1.1.0"
url = "=2.5.8"
serde_json = "=1.0.154"
serde = { version = "=1.0.229", features = ["derive"] }
reqwest = "=0.13.5"
thiserror = "=2.0.21"

[dev-dependencies]
http = "=1.5.0"

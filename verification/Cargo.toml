[package]
name = "http_client"
version = "0.1.0"
edition = "2021"
publish = false

[dependencies]
url = "2"
native-tls = "0.2"

[dev-dependencies]
regex = "1"

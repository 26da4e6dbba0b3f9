[package]
name = "curl-http-client"
version = "0.1.0"
edition = "2021"
publish = false

[dependencies]
http = "1"
tokio = { version = "1", features = ["sync", "rt"] }
curl = "0.4"
async-curl = "*"
log = "0.4"

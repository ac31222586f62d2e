[package]
name = "tokio_rustls"
version = "0.1.0"
edition = "2021"
publish = false

[dependencies]
futures = "=0.1.31"
tokio-io = "=0.1.13"
rustls = "=0.19.1"
webpki = "=0.21.4"

[dev-dependencies]
ring = "=0.16.20"

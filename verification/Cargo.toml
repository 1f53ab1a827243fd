[package]
name = "mumble_client"
version = "0.1.0"
edition = "2021"
publish = false

[dependencies]
bytes = "1"
prost = "0.13"
rustls = "0.23"
thiserror = "2"
tokio = { version = "1", features = ["full"] }
tokio-rustls = "0.26"
tracing = "0.1"
webpki-roots = "0.26"

[package]
name = "compio_wt"
version = "0.1.0"
edition = "2021"
publish = false

[dependencies]
web-transport-proto = "=0.6.3"
bytes = "=1.12.1"
url = "=2.5.8"
compio-quic = { version = "=0.8.2", features = ["webpki-roots"] }
compio = { version = "=0.19.2", features = ["io", "bytes"] }
rustls = "=0.23.46"
thiserror = "=2.0.21"

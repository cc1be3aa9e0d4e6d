[package]
name = "monoio_rustls"
version = "0.1.0"
edition = "2021"
publish = false

[dependencies]
rustls = "0.21"
monoio = "*"

[dev-dependencies]
rcgen = "0.11"

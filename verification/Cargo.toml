[package]
name = "rust-client"
version = "0.1.0"
edition = "2021"
publish = false

[dependencies]
mio = { version = "=1.2.4", features = ["net", "os-poll"] }
quiche = { version = "=0.30.0", default-features = false }
ring = "=0.17.14"
url = "=2.5.8"

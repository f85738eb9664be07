[package]
name = "ffwebapps"
version = "0.1.0"
edition = "2021"
publish = false

[dependencies]
anyhow = "=1.0.104"
blake3 = { version = "=1.8.7", features = ["pure"] }
ksni = { version = "0.3", features = ["blocking"] }
log = "=0.4.35"
ulid = "=1.2.1"
url = "=2.5.8"
urlencoding = "=2.1.3"
uuid = { version = "=1.29.0", features = ["v4"] }

[package]
name = "nsq_client"
version = "0.1.0"
edition = "2021"
publish = false

[dependencies]
bytes = "=0.4.12"
byteorder = "=1.5.0"
hostname = "=0.1.5"
log = "=0.4.35"
serde = { version = "=1.0.229", features = ["derive"] }
serde_json = "=1.0.154"
crossbeam = "=0.7.3"
mio = "=0.6.23"
backoff = "=0.1.6"
chrono = "=0.4.45"
net2 = "=0.2.39"
lazy_static = "=1.5.1"
rustls = { version = "0.16", features = ["dangerous_configuration"] }
webpki = "0.21"
webpki-roots = "0.17"
untrusted = "0.7"

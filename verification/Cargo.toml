[package]
name = "openbas-implant"
version = "0.1.0"
edition = "2021"
publish = false

[dependencies]
base64 = "0.22"
percent-encoding = "2"
mailparse = "*"
serde = { version = "1", features = ["derive"] }
serde_json = "1"
clap = { version = "4", features = ["derive"] }
log = "0.4"
ureq = { version = "2", features = ["json"] }
rustls = { version = "0.23", default-features = false, features = ["ring", "std", "tls12", "logging"] }
rolling-file = "0.2"
tracing-appender = "0.2"
tracing-subscriber = { version = "0.3", features = ["json"] }

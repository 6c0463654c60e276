[package]
name = "netcat"
version = "0.1.0"
edition = "2021"
publish = false

[dependencies]
failure = "0.1"
futures = "0.3"
log = "0.4"
quicli = "0.4"
quinn = "0.5"
structopt = "0.2"
tokio = { version = "0.2", features = ["rt-core", "io-std", "io-util"] }
trust-dns-resolver = "0.19"

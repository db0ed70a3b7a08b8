[package]
name = "biliget"
version = "0.1.0"
edition = "2021"
publish = false

[dependencies]
regex = "=1.13.1"
memchr = "=2.8.3"
sanitize-filename = "=0.6.0"
serde = { version = "=1.0.229", features = ["derive"] }
serde_json = "=1.0.154"
clap = { version = "=4.6.7", features = ["derive"] }
reqwest = { version = "=0.13.5", default-features = false, features = ["blocking", "json", "query"] }
http = "=1.5.0"
indicatif = "=0.18.6"
tokio = { version = "=1.54.1", features = ["full"] }
tokio-util = "=0.7.20"
url = "=2.5.8"
thiserror = "=2.0.21"
fast-down-ffi = { version = "=0.4.2", features = ["file"] }

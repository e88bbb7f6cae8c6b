[package]
name = "pocket_relay_plugin"
version = "0.1.0"
edition = "2021"
publish = false

[dependencies]
tokio = { version = "1", features = ["rt-multi-thread", "net", "io-util", "time", "sync", "fs", "macros"] }
reqwest = { version = "0.11", default-features = false }
hyper = { version = "0.14", features = ["server", "http1", "tcp"] }
url = "2"
semver = "1"
serde = { version = "1", features = ["derive"] }
serde_json = "1"
blaze-ssl-async = "*"

[package]
name = "simplex-core"
version = "0.1.0"
edition = "2021"
publish = false

[dependencies]
url = "2"
urlencoding = "2"
serde = { version = "1", features = ["derive"] }
serde_json = "1"
dirs = "5"
keyring = "3"
reqwest = { version = "0.12", default-features = false, features = ["json", "rustls-tls"] }
tokio = { version = "1", features = ["rt-multi-thread", "macros", "time"] }
rand = "0.8"
open = "5"

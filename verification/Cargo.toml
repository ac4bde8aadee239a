[package]
name = "cog-core"
version = "0.1.0"
edition = "2021"
publish = false

[dependencies]
anyhow = "1"
async-channel = "2"
async-lock = "3"
base64 = "0.22"
chrono = "0.4"
dirs = "5"
futures-lite = "2"
futures-rustls = { version = "0.26", default-features = false, features = ["ring", "tls12", "logging"] }
http-body-util = "0.1"
hyper = { version = "1", features = ["client", "http1"] }
json5 = "0.4"
keyring = "3"
libc = "0.2"
rand = "0.8"
rustls = { version = "0.23", default-features = false, features = ["ring", "std", "tls12", "logging"] }
serde = { version = "1", features = ["derive"] }
serde_json = "1"
smol = "2"
thiserror = "1"
tracing = "0.1"
tracing-subscriber = { version = "0.3", features = ["env-filter", "fmt"] }
url = "2"
uuid = { version = "1", features = ["v4"] }
webpki-roots = "0.26"

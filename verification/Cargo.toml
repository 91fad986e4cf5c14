[package]
name = "luks_volume"
version = "0.1.0"
edition = "2021"
publish = false

[dependencies]
openssl = "0.10"
base64 = "0.13"
url = "2"
uuid = { version = "1", features = ["v4"] }
serde = { version = "1", features = ["derive"] }
serde_json = "1"
log = "0.4"
simple_logger = "1"
lazy_static = "1"
clap = "2"
actix-web = { version = "4", default-features = false }
actix-http = { version = "3", default-features = false }
futures = "0.3"
derive_more = "0.99"
reqwest = { version = "0.12", default-features = false, features = ["blocking", "json", "native-tls"] }
cryptsetup-rs = "*"
block-utils = "*"
sys-mount = { version = "*", default-features = false }

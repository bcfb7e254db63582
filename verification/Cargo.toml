[package]
name = "dab_adapter"
version = "0.1.0"
edition = "2021"
publish = false

[dependencies]
serde = { version = "=1.0.229", features = ["derive"] }
serde_json = "=1.0.154"
urlencoding = "=2.1.3"
paho-mqtt = { version = "=0.14.0", default-features = false }
clap = { version = "=4.6.7", features = ["derive"] }
tokio = { version = "=1.54.1", features = ["full"] }
tokio-tungstenite = "=0.30.0"
tungstenite = "=0.30.0"
futures = "=0.3.34"
futures-util = "=0.3.34"
surf = { version = "=2.3.2", default-features = false, features = ["h1-client-rustls"] }
hyper = { version = "=0.14.32", features = ["full"] }
base64 = "=0.22.1"
bytes = "=1.12.1"
local-ip-address = "=0.6.13"
url = "=2.5.8"
lazy_static = "=1.5.1"

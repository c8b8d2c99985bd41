[package]
name = "obs_gpmdp"
version = "0.1.0"
edition = "2021"
publish = false

[dependencies]
futures = "0.1"
hyper = "0.12"
hyper-tls = "0.3"
image = "0.19"
lazy_static = "1"
mime = "0.3"
serde = "1"
serde_derive = "1"
serde_json = "1"
tera = "0.11"
tokio-core = "0.1"
websocket = { version = "0.20", default-features = false, features = ["async"] }

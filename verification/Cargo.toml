[package]
name = "hmkit_ws_native"
version = "0.1.1"
edition = "2021"
publish = false

[dependencies]
futures-util = { version = "=0.3.34", default-features = false, features = ["sink", "std"] }
napi-ohos = { version = "=1.2.0", features = ["async"] }
napi-derive-ohos = "=1.2.0"
rustls = { version = "0.23", default-features = false, features = ["ring", "std", "tls12"] }
tokio = { version = "=1.54.1", features = ["net", "sync", "rt", "macros"] }
tokio-tungstenite = { version = "=0.30.0", features = ["rustls-tls-webpki-roots"] }

[package]
name = "axum-tws"
version = "0.1.0"
edition = "2021"
publish = false

[dependencies]
axum-core = "=0.5.6"
base64 = "=0.22.1"
bytes = "=1.12.1"
futures-util = { version = "=0.3.34", default-features = false, features = ["sink", "std"] }
http = "=1.5.0"
hyper = { version = "=1.12.0", features = ["http2"] }
hyper-util = { version = "=0.1.21", features = ["tokio"] }
sha1 = "=0.10.7"
tokio = { version = "=1.54.1", default-features = false, features = ["rt"] }
tokio-websockets = { version = "=0.13.3", features = ["server", "sha1_smol"] }

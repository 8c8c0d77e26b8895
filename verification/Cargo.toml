[package]
name = "oci_client_js"
version = "0.1.0"
edition = "2021"
publish = false

[dependencies]
bytes = "*"
futures-util = "*"
napi = { version = "*", features = ["napi6", "tokio_rt", "serde-json"] }
napi-derive = "*"
oci-client = { version = "*", default-features = false, features = ["rustls-tls"] }
oci-spec = "*"
parking_lot = "*"
regex = "*"
serde = { version = "*", features = ["derive"] }
serde_json = "*"
thiserror = "*"
tokio = { version = "*", features = ["fs"] }
tokio-util = { version = "*", features = ["io"] }

[package]
name = "wasmcloud_oci"
version = "0.1.0"
edition = "2021"
publish = false

[dependencies]
anyhow = "1"
nkeys = "*"
oci-distribution = { version = "0.11", default-features = false, features = ["rustls-tls"] }
oci-wasm = { version = "0.0.4", default-features = false }
rustls-native-certs = "0.7"
rustls-pemfile = "2"
tokio = { version = "1", features = ["fs", "io-util"] }
url = "2"
wascap = "*"

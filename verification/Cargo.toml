[package]
name = "vp_doc_cli"
version = "0.1.0"
edition = "2021"
publish = false

[dependencies]
serde_json = "1"
serde = { version = "1", features = ["derive"] }
node-semver = "2"
owo-colors = "4"
thiserror = "2"
anyhow = "1"
tracing = "0.1"
rustc-hash = "2"
uuid = { version = "1", features = ["v4"] }
base64-simd = "0.8"

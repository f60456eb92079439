[package]
name = "echo_policy"
version = "0.1.0"
edition = "2021"
publish = false

[dependencies]
jmespath = "=0.5.0"
kubewarden-policy-sdk = { version = "=0.17.3", default-features = false }
anyhow = "=1.0.104"
serde = { version = "=1.0.229", features = ["derive"] }
serde_json = "=1.0.151"

[dev-dependencies]
assert-json-diff = "=2.0.2"

[package]
name = "bosh_codec"
version = "0.1.0"
edition = "2021"
publish = false

[dependencies]
bosh-rs = "*"
rustc_apfloat = "*"
serde = { version = "*", features = ["derive"] }
serde_json = "*"
anyhow = "*"

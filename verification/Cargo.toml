[package]
name = "signatures_bench"
version = "0.1.0"
edition = "2021"
publish = false

[dependencies]
ark-ec = "0.4.2"
ark-ff = "0.4.2"
ark-std = "0.4.0"
base64 = "0.22.1"
rand_core = { version = "0.6.4", features = ["getrandom"] }
serde_json = "1"
tokio = { version = "1", features = ["rt"] }

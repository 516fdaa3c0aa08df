[package]
name = "drand_client"
version = "0.1.0"
edition = "2021"
publish = false

[dependencies]
reqwest = { version = "=0.13.5", default-features = false, features = ["blocking", "rustls"] }
serde_json = "=1.0.151"
sha2 = "=0.10.9"
bls12_381 = { version = "=0.9.0", features = ["experimental"] }

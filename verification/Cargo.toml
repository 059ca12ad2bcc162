[package]
name = "pairing_codec"
version = "0.1.0"
edition = "2021"
publish = false

[dependencies]
ark-ff = "=0.5.0"
ark-ec = "=0.5.0"
ark-serialize = "=0.5.0"
ark-bn254 = "=0.5.0"
ark-bls12-381 = "=0.5.0"
ark-groth16 = "=0.5.0"
taceo-ark-babyjubjub = "=0.5.3"
alloy-primitives = "=1.7.3"
ruint = "=1.21.1"
rayon = "=1.12.0"
sha2 = "=0.10.9"
hex = "=0.4.3"
serde = { version = "=1.0.229", features = ["derive"] }
serde_json = "=1.0.154"
thiserror = "=2.0.21"
eyre = "=0.6.14"
clap = { version = "=4.6.7", features = ["derive"] }

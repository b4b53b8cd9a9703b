[package]
name = "beacon"
version = "0.1.0"
edition = "2021"
publish = false

[dependencies]
ssz = "=0.1.2"
ssz-derive = "=0.1.2"
hash-db = "=0.11.0"
keccak-hasher = "=0.11.0"
fixed-hash = "=0.3.2"
impl-serde = "=0.5.0"
serde = { version = "=1.0.229", features = ["derive"] }
parity-codec = { version = "=3.5.4", features = ["derive"] }
num-traits = "=0.2.19"

[package]
name = "quantum_bitcoin"
version = "0.1.0"
edition = "2021"
publish = false

[dependencies]
hex = "0.4"
pqcrypto-dilithium = "*"
pqcrypto-traits = "*"
rand = "0.8"
secp256k1 = { version = "0.29", features = ["rand", "std"] }
sha2 = "0.10"

[package]
name = "session_relay"
version = "0.1.0"
edition = "2021"
publish = false

[dependencies]
sha3 = "=0.10.9"
sha2 = "0.10"
ed25519-dalek = "=2.2.0"
base64 = "=0.13.1"

[dev-dependencies]
ethabi = "=18.0.0"
ethereum-types = "=0.14.1"
omni-transaction = { version = "=0.5.0", features = ["borsh"] }
hex = "=0.4.3"

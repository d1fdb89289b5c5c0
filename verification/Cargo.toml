[package]
name = "event_emitter"
version = "0.1.0"
edition = "2021"
publish = false

[dependencies]
anchor-lang = "=1.2.1"
anchor-syn = { version = "=1.2.1", features = ["hash"] }
solana-pubkey = { version = "=3.0.0", features = ["curve25519"] }
borsh = "=1.8.1"

[dev-dependencies]
base64 = "=0.22.1"

[package]
name = "addrgen"
version = "0.1.0"
edition = "2021"
publish = false

[dependencies]
ed25519-dalek = "=2.0.0"
soroban-sdk = { version = "=20.5.0", features = ["testutils"] }
soroban-env-host = { version = "=20.3.0", features = ["testutils"] }
arbitrary = { version = "=1.3.2", features = ["derive"] }
derive_arbitrary = "=1.3.2"

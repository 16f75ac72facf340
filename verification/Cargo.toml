[package]
name = "schnorr_canister"
version = "0.1.0"
edition = "2021"
publish = false

[dependencies]
bip32 = "0.5"
bitcoin = "0.32"
candid = "0.10"
getrandom = { version = "0.2", features = ["custom"] }
ic-cdk = "0.13"
ic-cdk-timers = "0.7"
ic-secp256k1 = "*"
ic-stable-structures = "0.6"
serde = { version = "1", features = ["derive"] }
serde_bytes = "0.11"
serde_json = "1"

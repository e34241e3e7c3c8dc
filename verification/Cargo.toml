[package]
name = "verified-rwa-contract"
version = "0.1.0"
edition = "2021"
publish = false

[dependencies]
andromeda-non-fungible-tokens = "=1.0.0"
cosmwasm-schema = "=1.5.11"
cosmwasm-std = "=1.5.11"
cw-storage-plus = "=1.2.0"
schemars = "=0.8.22"
serde = { version = "=1.0.229", features = ["derive"] }
thiserror = "=1.0.69"

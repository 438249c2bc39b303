[package]
name = "cw_asset"
version = "0.1.0"
edition = "2021"
publish = false

[dependencies]
cosmwasm-std = { version = "=1.5.11", features = ["stargate"] }
cw20 = "=1.1.2"
cw20-base = { version = "=1.1.2", features = ["library"] }
cw-storage-plus = "=1.2.0"
cosmwasm-schema = "=1.5.11"
schemars = "=0.8.22"
serde = { version = "=1.0.229", default-features = false, features = ["derive"] }

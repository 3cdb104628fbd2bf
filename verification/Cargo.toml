[package]
name = "fake_faucet"
version = "0.1.0"
edition = "2021"
publish = false

[dependencies]
cosmwasm-std = "1.2"
cosmwasm-schema = "1.2"
cw2 = "1.0"
cw20 = "1.0"
cw20-base = { version = "1.0", default-features = false, features = ["library"] }
cw721-base = { version = "0.16", default-features = false, features = ["library"] }
cw-storage-plus = "1.0"
cw-utils = "1.0"
nois = "0.7"
schemars = "0.8"
serde = { version = "1.0", default-features = false, features = ["derive"] }
serde-json-wasm = "0.5"
thiserror = "1.0"

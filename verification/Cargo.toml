[package]
name = "cw20_staking"
version = "0.9.1"
edition = "2021"
publish = false

[dependencies]
cosmwasm-std = { version = "=0.16.7", features = ["staking"] }
cw0 = "=0.9.1"
cw2 = "=0.9.1"
cw20 = "=0.9.1"
cw20-base = { version = "=0.9.1", features = ["library"] }
cw-controllers = "=0.9.1"
cw-storage-plus = "=0.9.1"
schemars = "0.8"
serde = { version = "1", features = ["derive"] }
thiserror = "1"

[package]
name = "white_hat_hacker"
version = "0.1.0"
edition = "2021"
publish = false

[dependencies]
cosmwasm-std = "1.1"
cosmwasm-schema = "1.1"
cw-storage-plus = "0.16"
cw20 = "0.16"
cw721 = "0.16"
cw721-base = { version = "0.16", features = ["library"] }
thiserror = "1"

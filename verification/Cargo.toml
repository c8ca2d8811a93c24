[package]
name = "cw20_reflection"
version = "0.1.0"
edition = "2021"
publish = false

[dependencies]
cosmwasm-std = "2.1"
cw2 = "2.0"
cw20 = "2.0"
cw20-base = "2.0"
cw-storage-plus = "2.0"
schemars = "0.8"
serde = { version = "1.0", default-features = false, features = ["derive"] }

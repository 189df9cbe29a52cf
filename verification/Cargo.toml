[package]
name = "terraswap_router"
version = "0.1.0"
edition = "2021"
publish = false

[dependencies]
classic-bindings = "=0.1.1"
classic_terraswap = "=2.8.0"
cosmwasm-std = "=1.5.11"
cw2 = "=0.14.0"
cw20 = "=0.14.0"

[package]
name = "counting_contract"
version = "0.1.0"
edition = "2021"
publish = false

[dependencies]
cosmwasm-std = "*"
thiserror = "*"
serde = { version = "*", features = ["derive"] }

[package]
name = "erth_pool"
version = "0.1.0"
edition = "2021"
publish = false

[dependencies]
serde = { version = "1", features = ["derive"] }
schemars = "*"
secret-cosmwasm-std = "*"
secret-toolkit = "*"
secret-toolkit-storage = "*"

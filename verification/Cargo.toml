[package]
name = "onchain_games"
version = "0.1.0"
edition = "2021"
publish = false

[dependencies]
sp-core = "*"
parity-scale-codec = { version = "3", features = ["derive"] }
scale-info = { version = "2", features = ["derive"] }

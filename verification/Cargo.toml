[package]
name = "orderbook"
version = "0.1.0"
edition = "2021"
publish = false

[dependencies]
lib-sokoban = "*"
bytemuck = { version = "*", features = ["derive"] }
borsh = { version = "*", features = ["derive"] }
solana-program = "*"
solana-security-txt = "*"

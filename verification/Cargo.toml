[package]
name = "game_ledger"
version = "0.1.0"
edition = "2021"
publish = false

[dependencies]
rusqlite = "*"
rouille = "*"
serde = { version = "1", features = ["derive"] }

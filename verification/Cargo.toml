[package]
name = "solvote"
version = "0.1.0"
edition = "2021"
publish = false

[dependencies]
anchor-lang = "0.31.1"
anchor-spl = { version = "0.31.1", default-features = false, features = ["associated_token", "token", "token_2022"] }
arcis = "*"

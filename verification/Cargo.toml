[package]
name = "game_attest"
version = "0.1.0"
edition = "2021"
publish = false

[dependencies]
sha2 = "0.10"
serde_json = "1"
serde = { version = "1", features = ["derive"] }
rand = "0.8"
rand_chacha = "0.3"

[package]
name = "compressed_state"
version = "0.1.0"
edition = "2021"
publish = false

[dependencies]
anchor-lang = { version = "0.28.0", features = ["event-cpi"] }
spl-account-compression = { version = "0.2.0", features = ["cpi"] }
bs58 = "0.4"
serde = { version = "1", features = ["derive"] }
serde_json = "1"

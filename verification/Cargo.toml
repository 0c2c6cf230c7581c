[package]
name = "bridge_program"
version = "0.1.0"
edition = "2021"
publish = false

[dependencies]
anchor-lang = "0.31"
anchor-spl = { version = "0.31", default-features = false, features = ["token"] }
solana-program = "2"

[dev-dependencies]
borsh = "*"
libsecp256k1 = "*"

[package]
name = "loyal_oracle"
version = "0.1.0"
edition = "2021"
publish = false

[dependencies]
anchor-lang = { version = "*", features = ["init-if-needed"] }
bolt-lang = "*"
ephemeral-rollups-sdk = { version = "*", features = ["anchor"] }
hkdf = "0.12"
sha2 = "0.10"

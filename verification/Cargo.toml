[package]
name = "chain_sensors"
version = "0.1.0"
edition = "2021"
publish = false

[dependencies]
anchor-lang = "=0.31.2"
anchor-spl = { version = "=0.31.2", default-features = false, features = ["token", "associated_token"] }
arcium-anchor = "=0.3.1"
arcium-client = { version = "=0.3.0", default-features = false }
arcium-macros = "=0.3.0"
arcis-imports = "*"
light-sdk = "*"
light-sdk-macros = "*"
light-hasher = "*"
light-account-checks = "*"

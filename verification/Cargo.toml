[package]
name = "asset_reward"
version = "0.1.0"
edition = "2021"
publish = false

[dependencies]
ink = { version = "4", features = ["std"] }

[dev-dependencies]
secp256k1 = { version = "0.27", features = ["recovery", "global-context"] }

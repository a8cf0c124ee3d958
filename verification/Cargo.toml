[package]
name = "ibc_relay_core"
version = "0.1.0"
edition = "2021"
publish = false

[dependencies]
alloy = { version = "*", default-features = false, features = ["sol-types", "dyn-abi", "transports"] }
alloy-primitives = "*"
anyhow = "1"
futures = "0.3"
serde = { version = "1", features = ["derive"] }
serde_json = "1"
serde_with = { version = "3", features = ["hex"] }
subtle-encoding = "0.5"
tendermint = "*"
thiserror = "*"
tonic = "*"
tracing = "0.1"

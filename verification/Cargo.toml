[package]
name = "mission_contract"
version = "0.1.0"
edition = "2021"
publish = false

[dependencies]
cfg-if = "1"
cosmwasm-schema = "1"
cosmwasm-std = "1"
cw-storage-plus = "1"
cw2 = "1"
schemars = "0.8"
serde = { version = "1", default-features = false, features = ["derive"] }
serde_repr = "0.1"
strum_macros = "0.24"
thiserror = "1"

[dev-dependencies]
serde_json = "1"

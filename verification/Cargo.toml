[package]
name = "registry_stake"
version = "0.1.0"
edition = "2021"
publish = false

[dependencies]
cosmwasm-std = { version = "=1.5.11", features = ["stargate"] }
cw2 = "=1.1.2"
cw20 = "=1.1.2"
cw-controllers = "=1.1.2"
cw-storage-plus = "=1.2.0"
cw-utils = "=1.0.3"
oorandom = "=11.1.5"
osmo-bindings = "=0.6.0"
osmosis-std = "=0.27.0"
schemars = "=0.8.22"
semver = "=1.0.28"
serde = { version = "=1.0.229", default-features = false, features = ["derive"] }
thiserror = "=1.0.69"

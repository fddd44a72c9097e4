[package]
name = "neutron-test-tube"
version = "0.1.0"
edition = "2021"
publish = false

[dependencies]
base64 = "=0.21.7"
cosmrs = { version = "=0.20.0", features = ["cosmwasm"] }
cosmwasm-std = { version = "=2.3.6", features = ["stargate", "cosmwasm_2_0"] }
margined-neutron-std = "=5.1.3"
prost = "=0.13.5"
serde = { version = "=1.0.229", features = ["derive"] }
serde_json = "=1.0.154"

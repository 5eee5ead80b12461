[package]
name = "subxt_rpc"
version = "0.1.0"
edition = "2021"
publish = false

[dependencies]
parity-scale-codec = { version = "=3.7.5", features = ["derive"] }
frame-metadata = "=15.2.0"
serde = { version = "=1.0.229", features = ["derive"] }
serde_json = "=1.0.154"
sp-core = "=6.0.0"
sp-runtime = "=6.0.0"
substrate-bip39 = "=0.4.4"
jsonrpsee = { version = "=0.8.0", features = ["async-client", "client-ws-transport"] }
jsonrpsee-types = "=0.8.0"

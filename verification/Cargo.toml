[package]
name = "fiber_dev_rpc"
version = "0.1.0"
edition = "2021"
publish = false

[dependencies]
async-trait = "=0.1.92"
ckb-jsonrpc-types = "=1.2.1"
ckb-sdk = { version = "=5.1.0", default-features = false }
ckb-types = "=1.1.4"
hex = "=0.4.3"
jsonrpsee = { version = "=0.26.1", features = ["server", "macros"] }
musig2 = "=0.4.1"
ractor = "=0.16.5"
schemars = "=1.2.3"
secp256k1 = { version = "=0.30.0", features = ["global-context"] }
serde = { version = "=1.0.229", features = ["derive"] }
tokio = { version = "=1.54.1", features = ["sync"] }

[package]
name = "contract_fuzzer"
version = "0.1.0"
edition = "2021"
publish = false

[dependencies]
alloy = { version = "*", default-features = false, features = ["contract", "node-bindings", "network", "providers", "rpc-types", "json-abi", "dyn-abi"] }
eyre = "*"
rand = "*"
serde_json = "*"
tokio = { version = "*", features = ["macros", "rt-multi-thread"] }

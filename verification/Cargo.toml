[package]
name = "evm_fork_cache"
version = "0.1.0"
edition = "2021"
publish = false

[dependencies]
alloy-chains = "0.1"
alloy-primitives = "0.7"
alloy-provider = { version = "0.1", default-features = false }
alloy-rpc-types = "0.1"
alloy-transport = "0.1"
comfy-table = "7"
dashmap = "=6.2.1"
eyre = "0.6"
quick_cache = "=0.7.0"
revm = { version = "10", default-features = false, features = ["std", "memory_limit", "optional_eip3607", "optional_block_gas_limit"] }
tokio = { version = "1", features = ["macros", "rt-multi-thread", "sync"] }

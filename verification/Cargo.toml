[package]
name = "runtime_configs"
version = "0.1.0"
edition = "2021"
publish = false

[dependencies]
cumulus-pallet-parachain-system = { version = "0.9", default-features = false }
cumulus-primitives-core = { version = "=0.9.0", default-features = false }
frame-support = { version = "=30.0.0", default-features = false }
frame-system = { version = "=30.0.0", default-features = false }
pallet-assets = { version = "31", default-features = false }
pallet-balances = { version = "=30.0.0", default-features = false }
pallet-nfts = { version = "=24.0.0", default-features = false }
pallet-proxy = { version = "=30.0.0", default-features = false }
pallet-vesting = { version = "30", default-features = false }
parity-scale-codec = { version = "=3.7.5", default-features = false, features = ["derive", "max-encoded-len"] }
scale-info = { version = "2", default-features = false, features = ["derive"] }
sp-core = { version = "=30.0.0", default-features = false }
sp-runtime = { version = "=33.0.0", default-features = false }
sp-runtime-interface = { version = "=26.0.0", default-features = false, features = ["disable_target_static_assertions"] }
staging-xcm = { version = "=9.0.0", default-features = false }

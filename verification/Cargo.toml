[package]
name = "mina_bridge_core"
version = "0.1.0"
edition = "2021"
publish = false

[dependencies]
alloy = { version = "=1.8.3", default-features = false, features = ["std", "json-rpc", "sol-types", "signer-local"] }
alloy-sol-types = "=1.7.3"
sha3 = "=0.10.9"
hex = "=0.4.3"
serde = { version = "=1.0.229", features = ["derive"] }
serde_json = "=1.0.154"
base64 = "=0.22.1"
bincode = "=1.3.3"
tokio = { version = "=1.54.1", features = ["full"] }
log = "=0.4.35"
env_logger = "=0.11.11"
dotenv = "=0.15.0"
clap = { version = "=4.6.7", features = ["derive"] }
zeroize = "=1.9.1"
reqwest = { version = "=0.12.28", default-features = false, features = ["json"] }
futures = { version = "=0.3.34", default-features = false, features = ["std"] }
rust_decimal = { version = "=1.43.0", default-features = false, features = ["std"] }
primitive-types = "=0.12.2"

[package]
name = "ockam_channel"
version = "0.1.0"
edition = "2021"
publish = false

[dependencies]
ockam_vault = "=0.29.0"
ockam_vault_core = "=0.29.0"
ockam_vault_sync_core = "=0.26.0"
ockam_key_exchange_core = "=0.27.0"
ockam_key_exchange_xx = "=0.27.0"
serde = { version = "=1.0.229", features = ["derive"] }
serde_bare = "=0.5.0"

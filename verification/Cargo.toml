[package]
name = "zenlink_vault_assets"
version = "0.1.0"
edition = "2021"
publish = false

[dependencies]
sp-core = "*"

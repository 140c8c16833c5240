[package]
name = "mol_cache"
version = "0.1.0"
edition = "2021"
publish = false

[dependencies]
pubchem = "*"

[dev-dependencies]
serde_json = "1"

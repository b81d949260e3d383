[package]
name = "vaultarq"
version = "0.1.0"
edition = "2021"
publish = false

[dependencies]
thiserror = "1"
which = "4"

[dev-dependencies]
regex = "1"

[package]
name = "sqlite_storage"
version = "0.1.0"
edition = "2021"
publish = false

[dependencies]
rusqlite = { version = "*", features = ["bundled"] }
serde = "*"
serde_json = "*"
openmls = "*"
openmls_basic_credential = "*"
openmls_rust_crypto = "*"
openmls_sqlite_storage = "*"
tls_codec = "*"

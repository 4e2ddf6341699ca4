[package]
name = "steam_store_api"
version = "0.1.0"
edition = "2021"
publish = false

[dependencies]
url = "2"
rust_iso3166 = "0.1"
reqwest = { version = "0.11", default-features = false, features = ["json", "rustls-tls"] }
serde = { version = "1", features = ["derive"] }
serde-aux = "4"
thiserror = "1"

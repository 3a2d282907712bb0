[package]
name = "openlibrary_client"
version = "0.1.0"
edition = "2021"
publish = false

[dependencies]
serde_json = "1"
surf = { version = "2", default-features = false, features = ["h1-client-rustls"] }
async-std = "1"

[package]
name = "spotk"
version = "0.1.0"
edition = "2021"
publish = false

[dependencies]
base62 = "*"
color-eyre = "*"
colored = "*"
dirs = "*"
rspotify = { version = "*", default-features = false, features = ["client-ureq", "ureq-rustls-tls"] }
rusqlite = { version = "*", features = ["bundled"] }
serde = { version = "*", features = ["derive"] }
toml = "*"

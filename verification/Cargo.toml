[package]
name = "portalfigure"
version = "0.1.0"
edition = "2021"
publish = false

[dependencies]
glob = "*"
rusqlite = "*"
serde = { version = "1", features = ["derive"] }
serde_json = "1"
toml = "*"

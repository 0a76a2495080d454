[package]
name = "uiuifree_elastic"
version = "0.1.0"
edition = "2021"
publish = false

[dependencies]
serde = { version = "*", features = ["derive"] }
serde_derive = "*"
serde_json = "*"
elastic-parser = "*"
elastic-query-builder = "*"
elasticsearch = "=8.5.0-alpha.1"
dotenv = "*"

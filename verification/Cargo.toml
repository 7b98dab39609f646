[package]
name = "gridkit"
version = "0.1.0"
edition = "2021"
publish = false

[dependencies]
nom = "*"
nom-language = "*"
thiserror = "*"
derive_more = { version = "*", features = ["full"] }

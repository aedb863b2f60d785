[package]
name = "bitcredit"
version = "0.1.0"
edition = "2021"
publish = false

[dependencies]
bitcoin = "*"
chrono = "0.4"
rocket = { version = "0.5", features = ["json"] }
rocket_dyn_templates = { version = "*", features = ["handlebars"] }
serde_json = "1"
libp2p = { version = "*", default-features = false }

[package]
name = "di_transform"
version = "0.1.0"
edition = "2021"
publish = false

[dependencies]
serde = "=1.0.219"
swc_core = { version = "=0.106.4", features = ["ecma_plugin_transform", "ecma_quote"] }

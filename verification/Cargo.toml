[package]
name = "vue_jsx_transform"
version = "0.1.0"
edition = "2021"
publish = false

[dependencies]
swc_core = { version = "=0.79.71", features = ["common", "ecma_ast", "ecma_utils", "ecma_visit", "ecma_plugin_transform"] }
serde = "=1.0.219"

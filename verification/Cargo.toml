[package]
name = "plugin_registry"
version = "0.1.0"
edition = "2021"
publish = false

[dependencies]
flate2 = "1"
tar = "0.4"
serde_json = "1"
reqwest = { version = "*", default-features = false }
tokio = { version = "1", features = ["fs", "rt", "macros"] }
sysinfo = "*"
local-ip-address = "*"

[package]
name = "nu_plugin_roaring"
version = "0.1.0"
edition = "2021"
publish = false

[dependencies]
roaring = { version = "=0.11.5", features = ["serde"] }
nu-plugin = "=0.115.1"
nu-protocol = "=0.115.1"
serde = { version = "=1.0.229", features = ["derive"] }
typetag = "=0.2.23"

[package]
name = "harmoxen"
version = "0.1.0"
edition = "2021"
publish = false

[dependencies]
druid = "0.6"
generational-arena = "0.2"
ron = "0.6"

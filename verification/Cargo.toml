[package]
name = "subsystem_driver"
version = "0.1.0"
edition = "2021"
publish = false

[dependencies]
juniper = { version = "0.11", default-features = false }

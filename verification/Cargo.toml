[package]
name = "ble_schema"
version = "0.1.0"
edition = "2021"
publish = false

[dependencies]
Inflector = "0.11.4"
proc-macro2 = "1"
quote = "1"
syn = { version = "1", features = ["full", "extra-traits"] }

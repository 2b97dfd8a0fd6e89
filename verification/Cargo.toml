[package]
name = "geobuffer"
version = "0.1.0"
edition = "2021"
publish = false

[dependencies]
geo = "*"
geojson = "*"
serde_json = "*"
console_error_panic_hook = "*"

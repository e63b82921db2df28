[package]
name = "osm_elements"
version = "0.1.0"
edition = "2021"
publish = false

[dependencies]
chrono = { version = "=0.4.45", features = ["serde"] }
fnv = "=1.0.7"
kstring = { version = "=1.0.6", features = ["serde"] }
rust_decimal = { version = "=1.43.0", features = ["serde"] }
serde = { version = "=1.0.229", features = ["derive"] }

[package]
name = "ulp_core"
version = "0.1.0"
edition = "2021"
publish = false

[dependencies]
esp32s3 = { version = "*", default-features = false }

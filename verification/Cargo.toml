[package]
name = "rgbxevion"
version = "0.1.0"
edition = "2021"
publish = false

[dependencies]
anyhow = "1"
log = "0.4"
log4rs = "*"
openrgb = "*"
tokio = { version = "1", features = ["macros", "net", "rt-multi-thread", "sync"] }
windows-service = "*"

[package]
name = "mathpixapi"
version = "0.1.0"
edition = "2021"
publish = false

[dependencies]
base64 = "0.13"
serde_json = "1"
url = "2"
clap = "4"
reqwest = { version = "0.11", default-features = false }

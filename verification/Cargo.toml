[package]
name = "fastembed_bridge"
version = "0.1.0"
edition = "2021"
publish = false

[dependencies]
fastembed = { version = "=7.5.0", default-features = false, features = ["ort-load-dynamic", "hf-hub-native-tls", "image-models"] }

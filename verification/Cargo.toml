[package]
name = "pico_harmony"
version = "0.1.0"
edition = "2021"
publish = false

[dependencies]
openai-harmony = "*"
serde_json = "1"
thiserror = "*"
uniffi = "*"

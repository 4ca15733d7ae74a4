[package]
name = "groq_transcribe"
version = "0.1.0"
edition = "2021"
publish = false

[dependencies]
serde_json = "1"
log = "0.4"
reqwest = { version = "0.12", default-features = false, features = ["multipart"] }

[dev-dependencies]
hound = "3"

[package]
name = "lore_reader"
version = "0.1.0"
edition = "2021"
publish = false

[dependencies]
serde_json = "*"
sublime_fuzzy = "*"
reqwest = { version = "*", default-features = false }
tokio = { version = "*", features = ["rt", "macros"] }
tts = "*"

[package]
name = "skill_tts"
version = "0.1.0"
edition = "2021"
publish = false

[dependencies]
sha2 = "0.10"
hound = "3.5"
neutts = { version = "*", default-features = false }
kittentts = { version = "*", default-features = false }
hf-hub = { version = "0.5", default-features = false, features = ["ureq"] }
rodio = { version = "0.22", default-features = false, features = ["playback"] }
serde = { version = "1", features = ["derive"] }
serde_json = "1"
tokio = { version = "1", features = ["rt", "sync"] }

[package]
name = "voicepipe"
version = "0.1.0"
edition = "2021"
publish = false

[dependencies]
async-trait = "*"
config = "*"
cpal = "*"
futures-util = "*"
reqwest = { version = "*", default-features = false, features = ["json", "stream"] }
rubato = "*"
serde = { version = "*", features = ["derive"] }
serde_json = "*"
thiserror = "*"
tokio = { version = "*", features = ["full"] }
tracing = "*"
tracing-subscriber = { version = "*", features = ["env-filter"] }
whisper-rs = "*"

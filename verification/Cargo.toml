[package]
name = "whispercrabs"
version = "0.1.0"
edition = "2021"
publish = false

[dependencies]
dirs = "=7.0.0"
dotenvy = "=0.15.7"
reqwest = { version = "=0.12.28", default-features = false, features = ["json", "multipart", "blocking", "rustls-tls"] }
tokio = { version = "=1.54.1", features = ["rt-multi-thread"] }
serde = { version = "=1.0.229", features = ["derive"] }
serde_json = "=1.0.154"
hound = "=3.5.1"
rubato = "=0.16.2"
whisper-rs = "=0.16.0"
gtk4 = "=0.11.5"
arboard = "=3.7.0"
rodio = "=0.20.1"
